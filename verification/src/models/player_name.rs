use crate::error::Result;
use crate::error::YatzyError;
use vstd::prelude::*;

verus! {

/// A player's display name (never empty).
#[derive(Debug, Clone, PartialEq, Eq, Hash)]
pub struct PlayerName {
    name: String,
}

impl View for PlayerName {
    type V = Seq<char>;

    closed spec fn view(&self) -> Seq<char> {
        self.name@
    }
}

impl PlayerName {
    /// Create a player name; an empty name is rejected.
    pub fn new(name: &str) -> (r: Result<PlayerName>)
        ensures
            r is Ok <==> name@.len() > 0,
            r matches Ok(n) ==> n@ == name@,
            r matches Err(e) ==> e == YatzyError::EmptyPlayerName,
    {
        if name.is_empty() {
            return Err(YatzyError::EmptyPlayerName);
        }
        Ok(PlayerName { name: String::from_str(name) })
    }

    /// Get the name as a string slice.
    pub fn as_str(&self) -> (s: &str)
        ensures
            s@ == self@,
    {
        self.name.as_str()
    }

    /// A copy of this name.
    pub fn duplicate(&self) -> (n: PlayerName)
        ensures
            n@ == self@,
    {
        PlayerName { name: self.name.clone() }
    }
}

} // verus!
