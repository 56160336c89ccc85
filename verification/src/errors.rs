use vstd::prelude::*;

use crate::crew::{CrewId, CrewMemberType};
use crate::galaxy::StationId;
use crate::player::PlayerId;
use crate::ship::module::ShipModuleId;
use crate::ship::ShipId;
use crate::text::{decimal_spec, push_decimal, push_str};

verus! {

/// Why a request to the game was refused.
///
/// The refusal for a lack of money carries amounts of money, which this
/// library does not hold; it is added where money is handled.
#[derive(Debug, PartialEq, Eq, Clone)]
pub enum Errcode {
    NoPlayerKey,
    PlayerNotFound(PlayerId),
    PlayerAlreadyExists(String),
    NoPlayerWithKey,
    ShipNotFound(ShipId),
    InvalidArgument(&'static str),
    ShipNotExtracting,
    ShipNotIdle,
    CrewMemberNotIdle(CrewId),
    CrewNotNeeded,
    CannotPerformTravel,
    NullDistance,
    NoSuchStation(StationId),
    NoSuchModule(ShipModuleId),
    CannotExtractWithoutPlanet,
    ShipNotInStation,
    WrongCrewType(CrewMemberType),
    CargoFull,
    NoTraderAssigned,
    NoPilotAssigned,
    BuyNothing,
    SellNothing,
    NoFuelInCargo,
    NoHullPlateInCargo,
    CrewMemberNotFound(CrewId),
    PlayerLost,
}

impl Errcode {
    /// The message that explains the refusal to the player.
    pub open spec fn errmsg_spec(&self) -> Seq<char> {
        match self {
            Errcode::NoPlayerKey => "No player key provided with the request"@,
            Errcode::PlayerNotFound(x) => "No player was found with this ID: "@ + decimal_spec(x as nat),
            Errcode::PlayerAlreadyExists(x) => "Player "@ + x@ + " already exists"@,
            Errcode::NoPlayerWithKey => "No player with this key exists in this game"@,
            Errcode::ShipNotFound(x) => "Ship of id "@ + decimal_spec(x as nat) + " not found"@,
            Errcode::InvalidArgument(x) => "Argument "@ + x@ + " has an invalid value"@,
            Errcode::CrewMemberNotIdle(x) => "Crew member "@ + decimal_spec(x as nat) + " is already occupied"@,
            Errcode::CrewNotNeeded => "This crew member is not needed aboard this ship"@,
            Errcode::CannotPerformTravel => "This travel cannot be done with the current state of the ship"@,
            Errcode::NullDistance => "You already are on this coordinates"@,
            Errcode::NoSuchStation(x) => "You don't own any station of id "@ + decimal_spec(x as nat),
            Errcode::NoSuchModule(x) => "Ship module of id "@ + decimal_spec(x as nat) + " doesn't exist"@,
            Errcode::CannotExtractWithoutPlanet => "Cannot extract resources, this ship is not on a planet"@,
            Errcode::ShipNotInStation => "This ship is not docked on station"@,
            Errcode::WrongCrewType(x) => "This module requires a crew member of type "@ + x.name_spec(),
            Errcode::CargoFull => "The cargo is full"@,
            Errcode::ShipNotIdle => "The ship is already occupied with a task"@,
            Errcode::ShipNotExtracting => "This ship is not extracting"@,
            Errcode::NoTraderAssigned => "This station doesn't have a trader assigned"@,
            Errcode::BuyNothing => "Either you attempted to BUY 0 units, or you don't have enough space in cargo to hold the resources"@,
            Errcode::SellNothing => "Either you attempted to SELL 0 units, or you don't have any unit of this resource in your cargo"@,
            Errcode::NoFuelInCargo => "You don't have any fuel in the station cargo"@,
            Errcode::NoHullPlateInCargo => "You don't have any hull plate in the station cargo"@,
            Errcode::CrewMemberNotFound(x) => "Crew member of id "@ + decimal_spec(x as nat) + " not found"@,
            Errcode::PlayerLost => "This player lost the game and cannot play anymore"@,
            Errcode::NoPilotAssigned => "No pilot is assigned on this ship"@,
        }
    }

    /// The message that explains the refusal to the player.
    pub fn errmsg(&self) -> (msg: String)
        ensures
            msg@ == self.errmsg_spec(),
    {
        let mut msg = String::new();
        match self {
            Errcode::NoPlayerKey => push_str(&mut msg, "No player key provided with the request"),
            Errcode::PlayerNotFound(x) => {
                push_str(&mut msg, "No player was found with this ID: ");
                push_decimal(&mut msg, *x as u64);
            },
            Errcode::PlayerAlreadyExists(x) => {
                push_str(&mut msg, "Player ");
                push_str(&mut msg, x);
                push_str(&mut msg, " already exists");
            },
            Errcode::NoPlayerWithKey => push_str(&mut msg, "No player with this key exists in this game"),
            Errcode::ShipNotFound(x) => {
                push_str(&mut msg, "Ship of id ");
                push_decimal(&mut msg, *x as u64);
                push_str(&mut msg, " not found");
            },
            Errcode::InvalidArgument(x) => {
                push_str(&mut msg, "Argument ");
                push_str(&mut msg, x);
                push_str(&mut msg, " has an invalid value");
            },
            Errcode::CrewMemberNotIdle(x) => {
                push_str(&mut msg, "Crew member ");
                push_decimal(&mut msg, *x as u64);
                push_str(&mut msg, " is already occupied");
            },
            Errcode::CrewNotNeeded => push_str(&mut msg, "This crew member is not needed aboard this ship"),
            Errcode::CannotPerformTravel => push_str(&mut msg, "This travel cannot be done with the current state of the ship"),
            Errcode::NullDistance => push_str(&mut msg, "You already are on this coordinates"),
            Errcode::NoSuchStation(x) => {
                push_str(&mut msg, "You don't own any station of id ");
                push_decimal(&mut msg, *x as u64);
            },
            Errcode::NoSuchModule(x) => {
                push_str(&mut msg, "Ship module of id ");
                push_decimal(&mut msg, *x as u64);
                push_str(&mut msg, " doesn't exist");
            },
            Errcode::CannotExtractWithoutPlanet => push_str(&mut msg, "Cannot extract resources, this ship is not on a planet"),
            Errcode::ShipNotInStation => push_str(&mut msg, "This ship is not docked on station"),
            Errcode::WrongCrewType(x) => {
                push_str(&mut msg, "This module requires a crew member of type ");
                push_str(&mut msg, x.name());
            },
            Errcode::CargoFull => push_str(&mut msg, "The cargo is full"),
            Errcode::ShipNotIdle => push_str(&mut msg, "The ship is already occupied with a task"),
            Errcode::ShipNotExtracting => push_str(&mut msg, "This ship is not extracting"),
            Errcode::NoTraderAssigned => push_str(&mut msg, "This station doesn't have a trader assigned"),
            Errcode::BuyNothing => push_str(&mut msg, "Either you attempted to BUY 0 units, or you don't have enough space in cargo to hold the resources"),
            Errcode::SellNothing => push_str(&mut msg, "Either you attempted to SELL 0 units, or you don't have any unit of this resource in your cargo"),
            Errcode::NoFuelInCargo => push_str(&mut msg, "You don't have any fuel in the station cargo"),
            Errcode::NoHullPlateInCargo => push_str(&mut msg, "You don't have any hull plate in the station cargo"),
            Errcode::CrewMemberNotFound(x) => {
                push_str(&mut msg, "Crew member of id ");
                push_decimal(&mut msg, *x as u64);
                push_str(&mut msg, " not found");
            },
            Errcode::PlayerLost => push_str(&mut msg, "This player lost the game and cannot play anymore"),
            Errcode::NoPilotAssigned => push_str(&mut msg, "No pilot is assigned on this ship"),
        }
        msg
    }
}

} // verus!
