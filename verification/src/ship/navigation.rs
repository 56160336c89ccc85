use vstd::prelude::*;

use crate::galaxy::SpaceCoord;

verus! {

/// A travel request: where a ship is asked to go.
#[derive(Debug, PartialEq, Eq, Clone, Copy)]
pub struct Travel {
    pub destination: SpaceCoord,
}

impl Travel {
    /// A travel towards `destination`.
    pub fn new(destination: SpaceCoord) -> (t: Travel)
        ensures
            t.destination == destination,
    {
        Travel { destination }
    }
}

} // verus!
