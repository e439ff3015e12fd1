use crate::error::Result;
use crate::error::YatzyError;
use crate::models::face_value::FaceValue;
use vstd::prelude::*;

verus! {

/// A face value of a six-sided die.
pub open spec fn is_die_face(v: u8) -> bool {
    1 <= v <= 6
}

/// Every value is a face of a six-sided die.
pub open spec fn all_die_faces(s: Seq<u8>) -> bool {
    forall|i: int| 0 <= i < s.len() ==> is_die_face(#[trigger] s[i])
}

/// The face values of the five dice of the game, each in `1..=6`.
#[derive(Debug, Clone, Copy, PartialEq, Eq, Hash)]
pub struct DiceSet {
    values: [u8; 5],
}

impl View for DiceSet {
    type V = Seq<u8>;

    closed spec fn view(&self) -> Seq<u8> {
        self.values@
    }
}

impl DiceSet {
    /// Five values, each a face of a six-sided die.
    #[verifier::type_invariant]
    pub open spec fn inv(&self) -> bool {
        self@.len() == 5 && all_die_faces(self@)
    }

    /// Create a dice set from five face values.
    ///
    /// Fails with `InvalidFaceValue` naming the first value (in slot
    /// order) that is not in `1..=6`.
    pub fn from_values(values: [u8; 5]) -> (r: Result<DiceSet>)
        ensures
            all_die_faces(values@) <==> r is Ok,
            r matches Ok(d) ==> d@ == values@,
            r matches Err(e) ==> exists|i: int|
                0 <= i < 5 && !is_die_face(#[trigger] values@[i]) && (forall|j: int|
                    0 <= j < i ==> is_die_face(#[trigger] values@[j])) && e
                    == YatzyError::InvalidFaceValue(values@[i]),
    {
        let mut i: usize = 0;
        while i < 5
            invariant
                i <= 5,
                forall|j: int| 0 <= j < i ==> is_die_face(#[trigger] values@[j]),
            decreases 5 - i,
        {
            let v = values[i];
            if v < 1 || v > 6 {
                assert(!is_die_face(values@[i as int]));
                return Err(YatzyError::InvalidFaceValue(v));
            }
            i += 1;
        }
        Ok(DiceSet { values })
    }

    /// The five face values in slot order.
    pub fn values(&self) -> (values: [u8; 5])
        ensures
            values@ == self@,
            all_die_faces(values@),
    {
        proof {
            use_type_invariant(self);
        }
        self.values
    }
}

/// Every one of the five faces has been reported.
pub open spec fn all_reported(faces: Seq<Option<FaceValue>>) -> bool {
    forall|i: int| 0 <= i < 5 ==> (#[trigger] faces[i]) is Some
}

/// The values of five reported faces, in slot order.
pub open spec fn reported_values(faces: Seq<Option<FaceValue>>) -> Seq<u8> {
    Seq::new(5, |i: int| faces[i]->0@)
}

/// Convert the face values of a roll to a `DiceSet`.
///
/// Returns `None` if any face value is missing (a die didn't report) or
/// is not a face of a six-sided die.
pub fn faces_to_dice_set(faces: &[Option<FaceValue>; 5]) -> (r: Option<DiceSet>)
    ensures
        r is Some <==> all_reported(faces@) && all_die_faces(reported_values(faces@)),
        r matches Some(d) ==> d@ == reported_values(faces@),
{
    let mut values: [u8; 5] = [0; 5];
    let mut i: usize = 0;
    while i < 5
        invariant
            i <= 5,
            forall|j: int| 0 <= j < i ==> (#[trigger] faces@[j]) is Some && values@[j] == faces@[j]->0@,
        decreases 5 - i,
    {
        match faces[i] {
            Some(f) => {
                values[i] = f.get();
            },
            None => {
                return None;
            },
        }
        i += 1;
    }
    assert(values@ =~= reported_values(faces@));
    match DiceSet::from_values(values) {
        Ok(d) => Some(d),
        Err(_) => None,
    }
}

} // verus!
