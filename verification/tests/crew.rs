use std::collections::BTreeMap;

use simeis::crew::{Crew, CrewMember, CrewMemberType, StationCrew};
use simeis::errors::Errcode;
use simeis::ship::module::{ShipModule, ShipModuleType};

fn station_with(idle: &[(u32, CrewMemberType)]) -> StationCrew {
    let mut sc = StationCrew::new();
    for (id, t) in idle {
        sc.idle_crew.insert(*id, CrewMember::from(*t));
    }
    sc
}

#[test]
fn hired_member_is_idle_at_rank_one() {
    let mut sc = StationCrew::new();
    let id = sc.hire_crew(CrewMemberType::Trader);
    assert_eq!(
        sc.idle_crew.get(&id),
        Some(CrewMember { member_type: CrewMemberType::Trader, rank: 1 })
    );
    assert_eq!(sc.trader, None);
}

#[test]
fn assign_trader_moves_member_to_work() {
    let mut sc = station_with(&[(5, CrewMemberType::Trader)]);
    assert_eq!(sc.assign_trader(5), Ok(()));
    assert_eq!(sc.trader, Some(5));
    assert_eq!(sc.idle_crew.get(&5), None);
    assert_eq!(sc.crew.get(&5).map(|c| c.member_type), Some(CrewMemberType::Trader));
    assert_eq!(sc.assign_trader(5), Err(Errcode::CrewMemberNotIdle(5)));
    assert_eq!(sc.trader, Some(5));
}

#[test]
fn onboard_pilot_checks_role_and_seat() {
    let mut sc = station_with(&[(1, CrewMemberType::Pilot), (2, CrewMemberType::Operator), (3, CrewMemberType::Pilot)]);
    let mut pilot = None;
    let mut ship_crew = Crew::new();
    assert_eq!(sc.onboard_pilot(9, &mut pilot, &mut ship_crew), Err(Errcode::CrewMemberNotIdle(9)));
    assert_eq!(
        sc.onboard_pilot(2, &mut pilot, &mut ship_crew),
        Err(Errcode::WrongCrewType(CrewMemberType::Pilot))
    );
    assert_eq!(sc.onboard_pilot(1, &mut pilot, &mut ship_crew), Ok(()));
    assert_eq!(pilot, Some(1));
    assert_eq!(ship_crew.get(&1).map(|c| c.member_type), Some(CrewMemberType::Pilot));
    assert_eq!(sc.idle_crew.get(&1), None);
    assert_eq!(sc.onboard_pilot(3, &mut pilot, &mut ship_crew), Err(Errcode::CrewNotNeeded));
    assert!(sc.idle_crew.get(&3).is_some());
}

#[test]
fn onboard_operator_checks_module() {
    let mut sc = station_with(&[(1, CrewMemberType::Operator), (2, CrewMemberType::Trader), (3, CrewMemberType::Operator)]);
    let mut modules = BTreeMap::new();
    modules.insert(1u16, ShipModuleType::Miner.new_module());
    let mut ship_crew = Crew::new();
    assert_eq!(
        sc.onboard_operator(2, &mut modules, &1, &mut ship_crew),
        Err(Errcode::WrongCrewType(CrewMemberType::Operator))
    );
    assert_eq!(sc.onboard_operator(1, &mut modules, &4, &mut ship_crew), Err(Errcode::NoSuchModule(4)));
    assert_eq!(sc.onboard_operator(1, &mut modules, &1, &mut ship_crew), Ok(()));
    assert_eq!(
        modules.get(&1),
        Some(&ShipModule { operator: Some(1), modtype: ShipModuleType::Miner, rank: 1 })
    );
    assert!(ship_crew.get(&1).is_some());
    assert_eq!(sc.onboard_operator(3, &mut modules, &1, &mut ship_crew), Err(Errcode::CrewNotNeeded));
}

#[test]
fn trader_is_known_once_assigned() {
    let mut sc = station_with(&[(4, CrewMemberType::Trader)]);
    assert_eq!(sc.trader_member(), Err(Errcode::NoTraderAssigned));
    sc.assign_trader(4).unwrap();
    assert_eq!(
        sc.trader_member(),
        Ok(CrewMember { member_type: CrewMemberType::Trader, rank: 1 })
    );
}
