use simeis::crew::CrewMemberType;
use simeis::industry::IndustryUnitType;
use simeis::ship::module::ShipModuleType;
use simeis::ship::resources::Resource;
use simeis::ship::upgrade::ShipUpgrade;

#[test]
fn resource_names_parse_in_any_case() {
    assert_eq!(Resource::from_str("iron"), Some(Resource::Iron));
    assert_eq!(Resource::from_str("IRON"), Some(Resource::Iron));
    assert_eq!(Resource::from_str("Iron"), Some(Resource::Iron));
    assert_eq!(Resource::from_str("hullplate"), Some(Resource::HullPlate));
    assert_eq!(Resource::from_str("irons"), None);
    assert_eq!(Resource::from_str(""), None);
    assert_eq!(Resource::from_str("Hull"), None);
    for r in Resource::all() {
        assert_eq!(Resource::from_str(r.name()), Some(r));
        assert_eq!(Resource::from_str(&r.name().to_uppercase()), Some(r));
    }
    assert_eq!(Resource::all().len(), 10);
}

#[test]
fn resource_ranks_and_extraction() {
    assert_eq!(Resource::Stone.min_rank(), 0);
    assert_eq!(Resource::Oxygen.min_rank(), 2);
    assert_eq!(Resource::Copper.min_rank(), 4);
    assert_eq!(Resource::Ozone.min_rank(), 6);
    assert_eq!(Resource::Fuel.min_rank(), 0);

    assert!(Resource::Stone.mineable(1));
    assert!(!Resource::Stone.mineable(0));
    assert!(!Resource::Iron.mineable(2));
    assert!(Resource::Iron.mineable(3));
    assert!(!Resource::Hydrogen.mineable(200));
    assert!(Resource::Hydrogen.suckable(1));
    assert!(!Resource::Gold.suckable(200));
    assert!(!Resource::Ozone.suckable(6));
    assert!(Resource::Ozone.suckable(7));

    for r in Resource::all() {
        assert!(!(r.mineable(u8::MAX) && r.suckable(u8::MAX)));
        if r.scored() {
            assert!(!r.mineable(u8::MAX) && !r.suckable(u8::MAX));
        }
    }
    assert!(Resource::Fuel.scored());
    assert!(Resource::HullPlate.scored());
    assert!(!Resource::Gold.scored());
}

#[test]
fn module_types_parse_in_any_case() {
    assert_eq!(ShipModuleType::from_str("miner"), Some(ShipModuleType::Miner));
    assert_eq!(ShipModuleType::from_str("GASSUCKER"), Some(ShipModuleType::GasSucker));
    assert_eq!(ShipModuleType::from_str("cargoext"), None);
    assert_eq!(ShipModuleType::all(), vec![ShipModuleType::Miner, ShipModuleType::GasSucker]);
    let m = ShipModuleType::Miner.new_module();
    assert_eq!(m.rank, 1);
    assert_eq!(m.operator, None);
    assert!(m.need(&CrewMemberType::Operator));
    assert!(!m.need(&CrewMemberType::Pilot));
}

#[test]
fn crew_types_parse_in_any_case() {
    assert_eq!(CrewMemberType::from_str("pilot"), Some(CrewMemberType::Pilot));
    assert_eq!(CrewMemberType::from_str("Operator"), Some(CrewMemberType::Operator));
    assert_eq!(CrewMemberType::from_str("TRADER"), Some(CrewMemberType::Trader));
    assert_eq!(CrewMemberType::from_str("soldier"), Some(CrewMemberType::Soldier));
    assert_eq!(CrewMemberType::from_str("captain"), None);
    assert_eq!(CrewMemberType::Trader.name(), "Trader");
}

#[test]
fn industry_types_parse_in_any_case() {
    assert_eq!(
        IndustryUnitType::from_str("simplefuelrefinery"),
        Some(IndustryUnitType::SimpleFuelRefinery)
    );
    assert_eq!(
        IndustryUnitType::from_str("AdvancedHullFoundry"),
        Some(IndustryUnitType::AdvancedHullFoundry)
    );
    assert_eq!(IndustryUnitType::from_str("refinery"), None);
    assert_eq!(IndustryUnitType::all().len(), 4);
}

#[test]
fn upgrades_parse_and_describe() {
    assert_eq!(ShipUpgrade::from_str("cargoexpansion"), Some(ShipUpgrade::CargoExpansion));
    assert_eq!(ShipUpgrade::from_str("SHIELD"), Some(ShipUpgrade::Shield));
    assert_eq!(ShipUpgrade::from_str("armor"), None);
    assert_eq!(ShipUpgrade::CargoExpansion.description(), "Adds 100 of cargo capacity");
    assert_eq!(
        ShipUpgrade::ReactorUpgrade.description(),
        "Increase the reactor power by 1, improves the ship's speed"
    );
    assert_eq!(ShipUpgrade::HullUpgrade.description(), "Increase the hull decay capacity by 100");
    assert_eq!(ShipUpgrade::Shield.description(), "Reduce the damage and usure of the hull");
    for u in ShipUpgrade::all() {
        assert_eq!(ShipUpgrade::from_str(u.name()), Some(u));
    }
}
