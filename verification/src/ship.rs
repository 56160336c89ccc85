//! Ships: the resources they carry, their modules, upgrades and travels.

pub mod module;
pub mod navigation;
pub mod resources;
pub mod rules;
pub mod upgrade;

use vstd::prelude::*;

verus! {

/// Identifier of a ship.
pub type ShipId = u64;

} // verus!
