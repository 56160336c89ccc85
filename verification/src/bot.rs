//! What the example player decides: how it equips itself when a game
//! starts, the order of the requests in each mining round, and which of the
//! station's resources it sells. Sending the requests is left to the caller.
use vstd::prelude::*;

use crate::ship::module::ShipModuleType;
use crate::text::str_eq;

verus! {

/// One request of the example player to the server.
#[derive(Debug, PartialEq, Eq, Structural, Clone, Copy)]
pub enum BotAction {
    BuyShip,
    BuyModule(ShipModuleType),
    HireOperator,
    AssignOperator,
    HirePilot,
    AssignPilot,
    HireTrader,
    AssignTrader,
    ReturnAndUnload,
    Travel,
    StartExtraction,
    WaitIdle,
    SellCargo,
    BuyFuel,
    Refuel,
    BuyHull,
    Repair,
}

/// The extraction module that suits a planet: a miner on a solid one, a gas
/// sucker on a gaseous one.
pub open spec fn module_for_spec(solid: bool) -> ShipModuleType {
    if solid {
        ShipModuleType::Miner
    } else {
        ShipModuleType::GasSucker
    }
}

/// The extraction module that suits a planet of the given kind.
pub fn module_for_planet(solid: bool) -> (m: ShipModuleType)
    ensures
        m == module_for_spec(solid),
{
    if solid {
        ShipModuleType::Miner
    } else {
        ShipModuleType::GasSucker
    }
}

/// The requests made once, before the first round: a player without a ship
/// buys one, fits the module that suits the target planet and hires an
/// operator, a pilot and a trader, each assigned right after being hired; a
/// player who already has a ship brings it back and empties it.
pub open spec fn opening_spec(has_ship: bool, planet_solid: bool) -> Seq<BotAction> {
    if has_ship {
        seq![BotAction::ReturnAndUnload]
    } else {
        seq![
            BotAction::BuyShip,
            BotAction::BuyModule(module_for_spec(planet_solid)),
            BotAction::HireOperator,
            BotAction::AssignOperator,
            BotAction::HirePilot,
            BotAction::AssignPilot,
            BotAction::HireTrader,
            BotAction::AssignTrader,
        ]
    }
}

/// The requests of one mining round: fly to the planet, extract until the
/// cargo is full, come back and unload, sell, then buy fuel and hull plates
/// and use them.
pub open spec fn round_spec() -> Seq<BotAction> {
    seq![
        BotAction::Travel,
        BotAction::StartExtraction,
        BotAction::WaitIdle,
        BotAction::ReturnAndUnload,
        BotAction::SellCargo,
        BotAction::BuyFuel,
        BotAction::Refuel,
        BotAction::BuyHull,
        BotAction::Repair,
    ]
}

/// The requests made before the first round.
pub fn opening(has_ship: bool, planet_solid: bool) -> (plan: Vec<BotAction>)
    ensures
        plan@ == opening_spec(has_ship, planet_solid),
{
    if has_ship {
        return vec![BotAction::ReturnAndUnload];
    }
    vec![
        BotAction::BuyShip,
        BotAction::BuyModule(module_for_planet(planet_solid)),
        BotAction::HireOperator,
        BotAction::AssignOperator,
        BotAction::HirePilot,
        BotAction::AssignPilot,
        BotAction::HireTrader,
        BotAction::AssignTrader,
    ]
}

/// The requests of one mining round, in order.
pub fn round() -> (plan: Vec<BotAction>)
    ensures
        plan@ == round_spec(),
{
    vec![
        BotAction::Travel,
        BotAction::StartExtraction,
        BotAction::WaitIdle,
        BotAction::ReturnAndUnload,
        BotAction::SellCargo,
        BotAction::BuyFuel,
        BotAction::Refuel,
        BotAction::BuyHull,
        BotAction::Repair,
    ]
}

/// Whether the player sells a resource of the station: everything but the
/// fuel and the hull plates it keeps for its ship.
pub open spec fn sells_spec(name: Seq<char>) -> bool {
    name != "Fuel"@ && name != "HullPlate"@
}

/// Whether the player sells the resource named `name`.
pub fn sells(name: &str) -> (b: bool)
    ensures
        b == sells_spec(name@),
{
    !(str_eq(name, "Fuel") || str_eq(name, "HullPlate"))
}

/// In a new game each crew member is assigned right after being hired, and
/// one of each kind is hired; the module bought suits the planet.
pub proof fn law_opening_hires_then_assigns(planet_solid: bool)
    ensures
        ({
            let p = opening_spec(false, planet_solid);
            &&& p.len() == 8
            &&& p[1] == BotAction::BuyModule(module_for_spec(planet_solid))
            &&& forall|i: int|
                0 <= i < p.len() ==> (#[trigger] p[i] == BotAction::HireOperator
                    <==> i == 2)
            &&& p[3] == BotAction::AssignOperator
            &&& forall|i: int|
                0 <= i < p.len() ==> (#[trigger] p[i] == BotAction::HirePilot <==> i
                    == 4)
            &&& p[5] == BotAction::AssignPilot
            &&& forall|i: int|
                0 <= i < p.len() ==> (#[trigger] p[i] == BotAction::HireTrader <==> i
                    == 6)
            &&& p[7] == BotAction::AssignTrader
        }),
{
}

/// `a` comes before `b` wherever both occur in `plan`.
pub open spec fn precedes(plan: Seq<BotAction>, a: BotAction, b: BotAction) -> bool {
    forall|i: int, j: int|
        0 <= i < plan.len() && 0 <= j < plan.len() && #[trigger] plan[i] == a && #[trigger] plan[j]
            == b ==> i < j
}

/// In every round the ship is idle again before it leaves the planet, the
/// cargo is unloaded before anything is sold, and the fuel and hull plates
/// are bought before they are used.
pub proof fn law_round_order()
    ensures
        precedes(round_spec(), BotAction::WaitIdle, BotAction::ReturnAndUnload),
        precedes(round_spec(), BotAction::ReturnAndUnload, BotAction::SellCargo),
        precedes(round_spec(), BotAction::BuyFuel, BotAction::Refuel),
        precedes(round_spec(), BotAction::BuyHull, BotAction::Repair),
{
}

} // verus!
