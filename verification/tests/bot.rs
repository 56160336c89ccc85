use simeis::bot::{module_for_planet, opening, round, sells, BotAction};
use simeis::game::{on_signal, pause_after_tick, GameSignal, LoopStep};
use simeis::ship::module::ShipModuleType;

#[test]
fn module_suits_the_planet() {
    assert_eq!(module_for_planet(true), ShipModuleType::Miner);
    assert_eq!(module_for_planet(false), ShipModuleType::GasSucker);
}

#[test]
fn new_player_equips_and_hires() {
    let plan = opening(false, false);
    assert_eq!(
        plan,
        vec![
            BotAction::BuyShip,
            BotAction::BuyModule(ShipModuleType::GasSucker),
            BotAction::HireOperator,
            BotAction::AssignOperator,
            BotAction::HirePilot,
            BotAction::AssignPilot,
            BotAction::HireTrader,
            BotAction::AssignTrader,
        ]
    );
    assert_eq!(opening(false, true)[1], BotAction::BuyModule(ShipModuleType::Miner));
}

#[test]
fn returning_player_unloads_first() {
    assert_eq!(opening(true, true), vec![BotAction::ReturnAndUnload]);
    assert_eq!(opening(true, false), vec![BotAction::ReturnAndUnload]);
}

#[test]
fn round_unloads_before_selling() {
    let r = round();
    assert_eq!(r.len(), 9);
    assert_eq!(r[0], BotAction::Travel);
    let pos = |a: BotAction| r.iter().position(|x| *x == a).unwrap();
    assert!(pos(BotAction::WaitIdle) < pos(BotAction::ReturnAndUnload));
    assert!(pos(BotAction::ReturnAndUnload) < pos(BotAction::SellCargo));
    assert!(pos(BotAction::BuyFuel) < pos(BotAction::Refuel));
    assert!(pos(BotAction::BuyHull) < pos(BotAction::Repair));
}

#[test]
fn fuel_and_hull_plates_are_kept() {
    assert!(!sells("Fuel"));
    assert!(!sells("HullPlate"));
    assert!(sells("Iron"));
    assert!(sells("fuel"));
    assert!(sells("Fuel "));
    assert!(sells(""));
}

#[test]
fn loop_runs_on_tick_and_exits_otherwise() {
    assert_eq!(on_signal(Some(GameSignal::Tick)), LoopStep::RunTick);
    assert_eq!(on_signal(Some(GameSignal::Stop)), LoopStep::Exit);
    assert_eq!(on_signal(None), LoopStep::Exit);
}

#[test]
fn pause_fills_the_period() {
    assert_eq!(pause_after_tick(20_000, 5_000), 15_000);
    assert_eq!(pause_after_tick(20_000, 20_000), 0);
    assert_eq!(pause_after_tick(20_000, 35_000), 0);
    assert_eq!(pause_after_tick(20_000, 0), 20_000);
}
