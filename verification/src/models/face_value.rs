use crate::error::Result;
use crate::error::YatzyError;
use vstd::prelude::*;

verus! {

/// The face value reported by a physical die (never zero).
#[derive(Debug, Clone, Copy, PartialEq, Eq, Hash, Structural)]
pub struct FaceValue {
    value: u8,
}

impl View for FaceValue {
    type V = u8;

    closed spec fn view(&self) -> u8 {
        self.value
    }
}

impl FaceValue {
    /// A face value is never zero.
    #[verifier::type_invariant]
    pub open spec fn inv(&self) -> bool {
        self@ != 0
    }

    /// Two face values are equal exactly when their values are.
    pub proof fn lemma_view_injective(a: FaceValue, b: FaceValue)
        ensures
            a@ == b@ <==> a == b,
    {
    }

    /// Create a face value; zero is rejected.
    pub fn new(value: u8) -> (r: Result<FaceValue>)
        ensures
            value != 0 <==> r is Ok,
            r matches Ok(f) ==> f@ == value,
            r matches Err(e) ==> e == YatzyError::InvalidFaceValue(value),
    {
        if value != 0 {
            Ok(FaceValue { value })
        } else {
            Err(YatzyError::InvalidFaceValue(value))
        }
    }

    /// Get the raw face value.
    pub fn get(self) -> (value: u8)
        ensures
            value == self@,
            value != 0,
    {
        proof {
            use_type_invariant(&self);
        }
        self.value
    }
}

} // verus!
