use crate::models::dice_slot::DiceSlot;
use vstd::prelude::*;

verus! {

/// A request to reconnect a disconnected dice to its slot.
///
/// Created when a dice disconnects mid-game, containing the slot
/// it was assigned to and the device name needed for reconnection.
#[derive(Debug, PartialEq, Eq)]
pub struct ReconnectionRequest {
    /// The slot the dice was assigned to.
    slot: DiceSlot,
    /// The BLE device name of the disconnected dice.
    device_name: String,
}

impl ReconnectionRequest {
    /// The slot of the request.
    pub closed spec fn slot_of(&self) -> DiceSlot {
        self.slot
    }

    /// The device name of the request.
    pub closed spec fn name_of(&self) -> Seq<char> {
        self.device_name@
    }

    /// Create a new reconnection request.
    pub fn new(slot: DiceSlot, device_name: &str) -> (r: ReconnectionRequest)
        ensures
            r.slot_of() == slot,
            r.name_of() == device_name@,
    {
        ReconnectionRequest { slot, device_name: String::from_str(device_name) }
    }

    /// Get the slot that needs reconnection.
    pub fn slot(&self) -> (s: DiceSlot)
        ensures
            s == self.slot_of(),
    {
        self.slot
    }

    /// Get the device name for reconnection.
    pub fn device_name(&self) -> (s: &str)
        ensures
            s@ == self.name_of(),
    {
        self.device_name.as_str()
    }
}

impl Clone for ReconnectionRequest {
    fn clone(&self) -> (r: Self)
        ensures
            r == *self,
    {
        ReconnectionRequest { slot: self.slot, device_name: self.device_name.clone() }
    }
}

} // verus!
