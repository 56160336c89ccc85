use simeis::crew::{Crew, CrewMember, CrewMemberType};
use simeis::galaxy::Planet;
use simeis::ship::module::{ShipModule, ShipModuleType};
use simeis::ship::resources::Resource;

fn crew_with_operator(rank: u8) -> Crew {
    let mut crew = Crew::new();
    crew.insert(4, CrewMember { member_type: CrewMemberType::Operator, rank });
    crew
}

fn module(modtype: ShipModuleType, operator: Option<u32>) -> ShipModule {
    ShipModule { operator, modtype, rank: 1 }
}

#[test]
fn planets_hold_two_resources_each() {
    let solid = Planet::new((0, 0, 0), 100, true);
    let gas = Planet::new((0, 0, 1), 100, false);
    assert_eq!(solid.resource_density(&Resource::Stone), 3);
    assert_eq!(solid.resource_density(&Resource::Iron), 1);
    assert_eq!(solid.resource_density(&Resource::Helium), 0);
    assert_eq!(solid.resource_density(&Resource::Gold), 0);
    assert_eq!(gas.resource_density(&Resource::Helium), 3);
    assert_eq!(gas.resource_density(&Resource::Ozone), 1);
    assert_eq!(gas.resource_density(&Resource::Stone), 0);
    assert_eq!(gas.resource_density(&Resource::Hydrogen), 0);
}

#[test]
fn miner_extracts_what_its_operator_can_mine() {
    let solid = Planet::new((0, 0, 0), 100, true);
    let m = module(ShipModuleType::Miner, Some(4));
    assert_eq!(m.can_extract(&crew_with_operator(1), &solid), vec![Resource::Stone]);
    assert_eq!(m.can_extract(&crew_with_operator(2), &solid), vec![Resource::Stone]);
    assert_eq!(
        m.can_extract(&crew_with_operator(3), &solid),
        vec![Resource::Stone, Resource::Iron]
    );
}

#[test]
fn gas_sucker_extracts_what_its_operator_can_suck() {
    let gas = Planet::new((0, 0, 1), 100, false);
    let m = module(ShipModuleType::GasSucker, Some(4));
    assert_eq!(m.can_extract(&crew_with_operator(1), &gas), Vec::<Resource>::new());
    assert_eq!(m.can_extract(&crew_with_operator(5), &gas), vec![Resource::Helium]);
    assert_eq!(
        m.can_extract(&crew_with_operator(7), &gas),
        vec![Resource::Helium, Resource::Ozone]
    );
}

#[test]
fn wrong_module_or_no_operator_extracts_nothing() {
    let solid = Planet::new((0, 0, 0), 100, true);
    let gas = Planet::new((0, 0, 1), 100, false);
    let crew = crew_with_operator(9);
    assert!(module(ShipModuleType::Miner, Some(4)).can_extract(&crew, &gas).is_empty());
    assert!(module(ShipModuleType::GasSucker, Some(4)).can_extract(&crew, &solid).is_empty());
    assert!(module(ShipModuleType::Miner, None).can_extract(&crew, &solid).is_empty());
}
