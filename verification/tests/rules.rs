use simeis::client::{has_trader, is_pong};
use simeis::errors::Errcode;
use simeis::ship::rules::{
    check_module_purchase, check_ship_purchase, check_upgrade, next_module_id, ship_tick, take_from_shipyard,
    PurchaseCheck, ShipActivity, TickReport, UpgradeTarget,
};

#[test]
fn tick_ends_flights_and_extractions() {
    assert_eq!(ship_tick(ShipActivity::InFlight, false, true), (ShipActivity::InFlight, TickReport::Nothing));
    assert_eq!(ship_tick(ShipActivity::InFlight, true, false), (ShipActivity::Idle, TickReport::FlightFinished));
    assert_eq!(ship_tick(ShipActivity::InFlight, true, true), (ShipActivity::Idle, TickReport::Destroyed));
    assert_eq!(
        ship_tick(ShipActivity::Extracting, true, true),
        (ShipActivity::Idle, TickReport::ExtractionStopped)
    );
    assert_eq!(
        ship_tick(ShipActivity::Extracting, false, false),
        (ShipActivity::Extracting, TickReport::Nothing)
    );
    assert_eq!(ship_tick(ShipActivity::Idle, true, true), (ShipActivity::Idle, TickReport::Nothing));
}

#[test]
fn starter_ships_stay_on_sale() {
    let mut yard = vec![10u64, 11, 12, 13, 14];
    assert_eq!(take_from_shipyard(&mut yard, 1, 99), 11);
    assert_eq!(yard, vec![10, 11, 12, 13, 14]);
    assert_eq!(take_from_shipyard(&mut yard, 3, 99), 13);
    assert_eq!(yard, vec![10, 11, 12, 14, 99]);
}

#[test]
fn purchases_check_ownership_place_then_money() {
    assert_eq!(check_ship_purchase(7, false, true), PurchaseCheck::Refused(Errcode::ShipNotFound(7)));
    assert_eq!(check_ship_purchase(7, true, false), PurchaseCheck::TooExpensive);
    assert_eq!(check_ship_purchase(7, true, true), PurchaseCheck::Allowed);

    let here = (1, 2, 3);
    let there = (1, 2, 4);
    assert_eq!(
        check_module_purchase(2, None, 7, Some(here), false),
        PurchaseCheck::Refused(Errcode::NoSuchStation(2))
    );
    assert_eq!(
        check_module_purchase(2, Some(here), 7, None, true),
        PurchaseCheck::Refused(Errcode::ShipNotFound(7))
    );
    assert_eq!(
        check_module_purchase(2, Some(here), 7, Some(there), false),
        PurchaseCheck::Refused(Errcode::ShipNotInStation)
    );
    assert_eq!(check_module_purchase(2, Some(here), 7, Some(here), false), PurchaseCheck::TooExpensive);
    assert_eq!(check_module_purchase(2, Some(here), 7, Some(here), true), PurchaseCheck::Allowed);

    assert_eq!(
        check_upgrade(here, 7, None, UpgradeTarget::Module(3), true, true),
        PurchaseCheck::Refused(Errcode::ShipNotFound(7))
    );
    assert_eq!(
        check_upgrade(here, 7, Some(there), UpgradeTarget::Module(3), false, true),
        PurchaseCheck::Refused(Errcode::ShipNotInStation)
    );
    assert_eq!(
        check_upgrade(here, 7, Some(here), UpgradeTarget::Module(3), false, true),
        PurchaseCheck::Refused(Errcode::NoSuchModule(3))
    );
    assert_eq!(
        check_upgrade(here, 7, Some(here), UpgradeTarget::CrewMember(5), false, true),
        PurchaseCheck::Refused(Errcode::CrewMemberNotFound(5))
    );
    assert_eq!(
        check_upgrade(here, 7, Some(here), UpgradeTarget::CrewMember(5), true, false),
        PurchaseCheck::TooExpensive
    );
    assert_eq!(check_upgrade(here, 7, Some(here), UpgradeTarget::Module(3), true, true), PurchaseCheck::Allowed);
}

#[test]
fn module_ids_follow_the_count() {
    assert_eq!(next_module_id(0), 1);
    assert_eq!(next_module_id(4), 5);
    assert_eq!(next_module_id(65535), 0);
}

#[test]
fn client_reads_answers() {
    assert!(is_pong(&Some("pong".to_string())));
    assert!(!is_pong(&Some("Pong".to_string())));
    assert!(!is_pong(&None));
    assert!(has_trader(&vec!["Pilot".to_string(), "Trader".to_string()]));
    assert!(!has_trader(&vec!["Pilot".to_string(), "trader".to_string()]));
    assert!(!has_trader(&vec![]));
}
