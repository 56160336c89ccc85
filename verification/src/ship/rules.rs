//! The rules of the ship trade and of a ship's activity that hold no
//! amounts: what a game tick does to a ship, which ships the shipyard keeps,
//! and in which order a purchase is checked. Prices, money, fuel and hull
//! wear are floating point numbers; the caller compares them and passes the
//! outcome in as a `bool`.
use vstd::prelude::*;

use crate::crew::CrewId;
use crate::errors::Errcode;
use crate::galaxy::{SpaceCoord, StationId};
use crate::ship::module::ShipModuleId;
use crate::ship::ShipId;

verus! {

/// What a ship is busy with.
#[derive(Debug, PartialEq, Eq, Structural, Clone, Copy)]
pub enum ShipActivity {
    Idle,
    InFlight,
    Extracting,
}

/// What a game tick reports about a ship.
#[derive(Debug, PartialEq, Eq, Structural, Clone, Copy)]
pub enum TickReport {
    /// Nothing to report: the ship goes on with what it was doing.
    Nothing,
    /// The ship reached its destination.
    FlightFinished,
    /// The ship reached its destination with its hull worn out, and is lost.
    Destroyed,
    /// The ship's extraction ended, its cargo being full.
    ExtractionStopped,
}

/// The ship's activity and report after a tick, given whether its flight or
/// extraction finished during the tick and whether its hull wear has reached
/// its hull's resistance.
pub open spec fn tick_spec(activity: ShipActivity, finished: bool, worn_out: bool) -> (
    ShipActivity,
    TickReport,
) {
    match activity {
        ShipActivity::InFlight => if !finished {
            (ShipActivity::InFlight, TickReport::Nothing)
        } else if worn_out {
            (ShipActivity::Idle, TickReport::Destroyed)
        } else {
            (ShipActivity::Idle, TickReport::FlightFinished)
        },
        ShipActivity::Extracting => if finished {
            (ShipActivity::Idle, TickReport::ExtractionStopped)
        } else {
            (ShipActivity::Extracting, TickReport::Nothing)
        },
        ShipActivity::Idle => (ShipActivity::Idle, TickReport::Nothing),
    }
}

/// What a game tick does to a ship.
pub fn ship_tick(activity: ShipActivity, finished: bool, worn_out: bool) -> (r: (
    ShipActivity,
    TickReport,
))
    ensures
        r == tick_spec(activity, finished, worn_out),
{
    match activity {
        ShipActivity::InFlight => if !finished {
            (ShipActivity::InFlight, TickReport::Nothing)
        } else if worn_out {
            (ShipActivity::Idle, TickReport::Destroyed)
        } else {
            (ShipActivity::Idle, TickReport::FlightFinished)
        },
        ShipActivity::Extracting => if finished {
            (ShipActivity::Idle, TickReport::ExtractionStopped)
        } else {
            (ShipActivity::Extracting, TickReport::Nothing)
        },
        ShipActivity::Idle => (ShipActivity::Idle, TickReport::Nothing),
    }
}

/// A tick never sets a ship to work: it keeps its activity or becomes
/// idle, and it reports something exactly when it becomes idle. A ship is
/// lost only at the end of a flight.
pub proof fn law_tick_only_ends_activities(activity: ShipActivity, finished: bool, worn_out: bool)
    ensures
        ({
            let (next, report) = tick_spec(activity, finished, worn_out);
            &&& next == activity || next == ShipActivity::Idle
            &&& (report != TickReport::Nothing <==> (next != activity))
            &&& (report == TickReport::Destroyed ==> activity == ShipActivity::InFlight && finished
                && worn_out)
        }),
{
}

/// What each activity becomes when it finishes: an extraction that ends
/// leaves the ship idle and reports that it stopped, whatever the hull's
/// wear; a flight that ends leaves the ship idle and reports its arrival, or
/// its loss when the hull is worn out; nothing finishes for an idle ship, and
/// an unfinished activity goes on unreported.
pub proof fn law_tick_ends(finished: bool, worn_out: bool)
    ensures
        tick_spec(ShipActivity::Extracting, true, worn_out) == (
            ShipActivity::Idle,
            TickReport::ExtractionStopped,
        ),
        tick_spec(ShipActivity::InFlight, true, false) == (
            ShipActivity::Idle,
            TickReport::FlightFinished,
        ),
        tick_spec(ShipActivity::InFlight, true, true) == (ShipActivity::Idle, TickReport::Destroyed),
        tick_spec(ShipActivity::Idle, finished, worn_out) == (ShipActivity::Idle, TickReport::Nothing),
        tick_spec(ShipActivity::InFlight, false, worn_out) == (
            ShipActivity::InFlight,
            TickReport::Nothing,
        ),
        tick_spec(ShipActivity::Extracting, false, worn_out) == (
            ShipActivity::Extracting,
            TickReport::Nothing,
        ),
{
}

/// How many ships at the head of a shipyard are starters: they stay on sale
/// for every player.
pub const STARTER_SHIPS: usize = 3;

/// Takes the ship at `index` out of a shipyard. A starter ship is copied and
/// stays on sale; any other one is removed, and `replacement` goes on sale at
/// the end of the yard in its place.
pub fn take_from_shipyard<T: Clone>(yard: &mut Vec<T>, index: usize, replacement: T) -> (ship: T)
    requires
        index < old(yard)@.len(),
    ensures
        index < STARTER_SHIPS ==> {
            &&& final(yard)@ == old(yard)@
            &&& cloned(old(yard)@[index as int], ship)
        },
        index >= STARTER_SHIPS ==> {
            &&& ship == old(yard)@[index as int]
            &&& final(yard)@ == old(yard)@.remove(index as int).push(replacement)
        },
{
    if index < STARTER_SHIPS {
        yard[index].clone()
    } else {
        let ship = yard.remove(index);
        yard.push(replacement);
        ship
    }
}

/// The outcome of checking a purchase.
#[derive(Debug, PartialEq, Eq, Clone)]
pub enum PurchaseCheck {
    /// The purchase can go ahead.
    Allowed,
    /// The purchase is refused for this reason.
    Refused(Errcode),
    /// Everything is in order but the player cannot afford the price.
    TooExpensive,
}

/// The check of buying the shipyard's ship `id`: it must be on sale, then
/// affordable.
pub fn check_ship_purchase(id: ShipId, on_sale: bool, affordable: bool) -> (c: PurchaseCheck)
    ensures
        c == (if !on_sale {
            PurchaseCheck::Refused(Errcode::ShipNotFound(id))
        } else if !affordable {
            PurchaseCheck::TooExpensive
        } else {
            PurchaseCheck::Allowed
        }),
{
    if !on_sale {
        PurchaseCheck::Refused(Errcode::ShipNotFound(id))
    } else if !affordable {
        PurchaseCheck::TooExpensive
    } else {
        PurchaseCheck::Allowed
    }
}

/// The check of fitting a new module on ship `ship_id` at station
/// `station_id`, given where the player's station and ship are, if the
/// player owns them: the station first, then the ship, then that the ship is
/// docked at the station, then the price.
pub open spec fn module_purchase_spec(
    station_id: StationId,
    station: Option<SpaceCoord>,
    ship_id: ShipId,
    ship: Option<SpaceCoord>,
    affordable: bool,
) -> PurchaseCheck {
    match (station, ship) {
        (None, _) => PurchaseCheck::Refused(Errcode::NoSuchStation(station_id)),
        (Some(_), None) => PurchaseCheck::Refused(Errcode::ShipNotFound(ship_id)),
        (Some(at), Some(pos)) => if at != pos {
            PurchaseCheck::Refused(Errcode::ShipNotInStation)
        } else if !affordable {
            PurchaseCheck::TooExpensive
        } else {
            PurchaseCheck::Allowed
        },
    }
}

/// The check of fitting a new module on a ship.
pub fn check_module_purchase(
    station_id: StationId,
    station: Option<SpaceCoord>,
    ship_id: ShipId,
    ship: Option<SpaceCoord>,
    affordable: bool,
) -> (c: PurchaseCheck)
    ensures
        c == module_purchase_spec(station_id, station, ship_id, ship, affordable),
{
    match (station, ship) {
        (None, _) => PurchaseCheck::Refused(Errcode::NoSuchStation(station_id)),
        (Some(_), None) => PurchaseCheck::Refused(Errcode::ShipNotFound(ship_id)),
        (Some(at), Some(pos)) => if !same_place(at, pos) {
            PurchaseCheck::Refused(Errcode::ShipNotInStation)
        } else if !affordable {
            PurchaseCheck::TooExpensive
        } else {
            PurchaseCheck::Allowed
        },
    }
}

/// Whether two positions are the same.
fn same_place(a: SpaceCoord, b: SpaceCoord) -> (same: bool)
    ensures
        same == (a == b),
{
    a.0 == b.0 && a.1 == b.1 && a.2 == b.2
}

/// The identifier of a module fitted on a ship that has `count` modules:
/// one more than their count, truncated to a module identifier as the game
/// does.
pub fn next_module_id(count: usize) -> (id: ShipModuleId)
    requires
        count < usize::MAX,
    ensures
        id == ((count + 1) as ShipModuleId),
{
    let n: usize = count + 1;
    #[verifier::truncate]
    (n as ShipModuleId)
}

/// What an upgrade of one of a ship's parts at a station needs to be found.
#[derive(Debug, PartialEq, Eq, Structural, Clone, Copy)]
pub enum UpgradeTarget {
    /// A module of the ship.
    Module(ShipModuleId),
    /// A crew member aboard the ship.
    CrewMember(CrewId),
}

/// The check of upgrading a part of ship `ship_id` at a station at
/// `station`: the player must own the ship, the ship must be docked there,
/// the part must be aboard, then the price must be affordable.
pub open spec fn upgrade_spec(
    station: SpaceCoord,
    ship_id: ShipId,
    ship: Option<SpaceCoord>,
    target: UpgradeTarget,
    target_found: bool,
    affordable: bool,
) -> PurchaseCheck {
    match ship {
        None => PurchaseCheck::Refused(Errcode::ShipNotFound(ship_id)),
        Some(pos) => if pos != station {
            PurchaseCheck::Refused(Errcode::ShipNotInStation)
        } else if !target_found {
            match target {
                UpgradeTarget::Module(m) => PurchaseCheck::Refused(Errcode::NoSuchModule(m)),
                UpgradeTarget::CrewMember(c) => PurchaseCheck::Refused(Errcode::CrewMemberNotFound(c)),
            }
        } else if !affordable {
            PurchaseCheck::TooExpensive
        } else {
            PurchaseCheck::Allowed
        },
    }
}

/// The check of upgrading a module of a ship or the rank of a crew member
/// aboard it.
pub fn check_upgrade(
    station: SpaceCoord,
    ship_id: ShipId,
    ship: Option<SpaceCoord>,
    target: UpgradeTarget,
    target_found: bool,
    affordable: bool,
) -> (c: PurchaseCheck)
    ensures
        c == upgrade_spec(station, ship_id, ship, target, target_found, affordable),
{
    match ship {
        None => PurchaseCheck::Refused(Errcode::ShipNotFound(ship_id)),
        Some(pos) => if !same_place(pos, station) {
            PurchaseCheck::Refused(Errcode::ShipNotInStation)
        } else if !target_found {
            match target {
                UpgradeTarget::Module(m) => PurchaseCheck::Refused(Errcode::NoSuchModule(m)),
                UpgradeTarget::CrewMember(c) => PurchaseCheck::Refused(
                    Errcode::CrewMemberNotFound(c),
                ),
            }
        } else if !affordable {
            PurchaseCheck::TooExpensive
        } else {
            PurchaseCheck::Allowed
        },
    }
}

/// A module is fitted only on a ship docked at one of the player's
/// stations, and only when the player can pay: a ship elsewhere is refused
/// as not docked whatever the player's money, and an allowed purchase has
/// the station and the ship at the same place.
pub proof fn law_module_purchase_needs_docking(
    station_id: StationId,
    station: Option<SpaceCoord>,
    ship_id: ShipId,
    ship: Option<SpaceCoord>,
    affordable: bool,
)
    ensures
        station is None ==> module_purchase_spec(station_id, station, ship_id, ship, affordable)
            == PurchaseCheck::Refused(Errcode::NoSuchStation(station_id)),
        station is Some && ship is None ==> module_purchase_spec(
            station_id,
            station,
            ship_id,
            ship,
            affordable,
        ) == PurchaseCheck::Refused(Errcode::ShipNotFound(ship_id)),
        (station matches Some(at) && ship matches Some(pos) && at != pos) ==> module_purchase_spec(
            station_id,
            station,
            ship_id,
            ship,
            affordable,
        ) == PurchaseCheck::Refused(Errcode::ShipNotInStation),
        module_purchase_spec(station_id, station, ship_id, ship, affordable) == PurchaseCheck::Allowed
            <==> (station is Some && ship == station && affordable),
{
}

/// An upgrade is allowed only for a ship of the player docked at the
/// station, on a part found aboard, and when the player can pay; a ship
/// elsewhere is refused as not docked whatever else holds.
pub proof fn law_upgrade_needs_docking(
    station: SpaceCoord,
    ship_id: ShipId,
    ship: Option<SpaceCoord>,
    target: UpgradeTarget,
    found: bool,
    affordable: bool,
)
    ensures
        ship is None ==> upgrade_spec(station, ship_id, ship, target, found, affordable)
            == PurchaseCheck::Refused(Errcode::ShipNotFound(ship_id)),
        (ship matches Some(pos) && pos != station) ==> upgrade_spec(
            station,
            ship_id,
            ship,
            target,
            found,
            affordable,
        ) == PurchaseCheck::Refused(Errcode::ShipNotInStation),
        upgrade_spec(station, ship_id, ship, target, found, affordable) == PurchaseCheck::Allowed
            <==> (ship == Some(station) && found && affordable),
{
}

/// Money is looked at last: whatever a player can afford, a purchase that
/// is refused for another reason is refused for that same reason.
pub proof fn law_money_checked_last(
    station_id: StationId,
    station: Option<SpaceCoord>,
    ship_id: ShipId,
    ship: Option<SpaceCoord>,
    at: SpaceCoord,
    target: UpgradeTarget,
    found: bool,
)
    ensures
        module_purchase_spec(station_id, station, ship_id, ship, true) is Refused
            ==> module_purchase_spec(station_id, station, ship_id, ship, false)
            == module_purchase_spec(station_id, station, ship_id, ship, true),
        upgrade_spec(at, ship_id, ship, target, found, true) is Refused ==> upgrade_spec(
            at,
            ship_id,
            ship,
            target,
            found,
            false,
        ) == upgrade_spec(at, ship_id, ship, target, found, true),
{
}

} // verus!
