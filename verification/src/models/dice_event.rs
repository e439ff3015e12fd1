use crate::models::face_value::FaceValue;
use vstd::prelude::*;

verus! {

/// An event reported by one physical die, as far as the game reads it.
#[derive(Debug, Clone, Copy, PartialEq, Eq, Structural)]
pub enum DiceEvent {
    /// The die started rolling.
    RollStart,
    /// The die came to rest showing a face.
    Stable {
        /// The face shown.
        face: FaceValue,
    },
    /// The die was tilted and is at rest.
    TiltStable {
        /// The face shown.
        face: FaceValue,
    },
    /// The die reported a short, fake roll and is at rest.
    FakeStable {
        /// The face shown.
        face: FaceValue,
    },
    /// The die was moved and is at rest.
    MoveStable {
        /// The face shown.
        face: FaceValue,
    },
    /// The die disconnected.
    Disconnected,
    /// Any other report (charging, taps, ...), which the game ignores.
    Other,
}

/// The face of a stable-type event (stable, tilt, fake or move stable).
pub open spec fn stable_face(e: DiceEvent) -> Option<FaceValue> {
    match e {
        DiceEvent::Stable { face } => Some(face),
        DiceEvent::TiltStable { face } => Some(face),
        DiceEvent::FakeStable { face } => Some(face),
        DiceEvent::MoveStable { face } => Some(face),
        _ => None,
    }
}

impl DiceEvent {
    /// The face of a stable-type event, if this is one.
    pub fn stable_face(&self) -> (f: Option<FaceValue>)
        ensures
            f == stable_face(*self),
    {
        match self {
            DiceEvent::Stable { face } => Some(*face),
            DiceEvent::TiltStable { face } => Some(*face),
            DiceEvent::FakeStable { face } => Some(*face),
            DiceEvent::MoveStable { face } => Some(*face),
            _ => None,
        }
    }
}

} // verus!
