use vstd::prelude::*;
use vstd::std_specs::convert::FromSpecImpl;

pub mod player_hand;

verus! {

/// The seat of a player at the table, or no player at all.
#[derive(Copy, Clone, PartialEq, Eq, Structural, Debug)]
pub struct PlayerId(pub u8);

impl PlayerId {
    /// The id that stands for no player.
    pub open spec fn spec_none() -> PlayerId {
        PlayerId(255)
    }

    /// No player.
    pub fn none() -> (r: PlayerId)
        ensures
            r == PlayerId::spec_none(),
    {
        PlayerId(255)
    }

    /// The first player.
    pub fn first() -> (r: PlayerId)
        ensures
            r == PlayerId(0),
    {
        PlayerId(0)
    }

    pub fn to_u8(self) -> (r: u8)
        ensures
            r == self.0,
    {
        self.0
    }

    pub fn to_usize(self) -> (r: usize)
        ensures
            r == self.0,
    {
        self.0 as usize
    }
}

impl From<u8> for PlayerId {
    fn from(id: u8) -> (r: PlayerId) {
        PlayerId(id)
    }
}

impl FromSpecImpl<u8> for PlayerId {
    open spec fn obeys_from_spec() -> bool {
        true
    }

    open spec fn from_spec(id: u8) -> PlayerId {
        PlayerId(id)
    }
}

} // verus!
