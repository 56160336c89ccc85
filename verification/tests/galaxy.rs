use simeis::galaxy::scan::ScanResult;
use simeis::galaxy::{Galaxy, Planet, PlanetInfo, SpaceObject, StationInfo};
use simeis::ship::navigation::Travel;

#[test]
fn objects_are_found_where_they_were_placed() {
    let mut galaxy: Galaxy<u16> = Galaxy::init();
    assert!(galaxy.get_space_object((1, 2, 3)).is_none());
    galaxy.insert_space_object((1, 2, 3), SpaceObject::BaseStation(7));
    galaxy.insert_space_object((1, 2, 4), SpaceObject::Planet(Planet::new((1, 2, 4), 300, true)));
    galaxy.insert_space_object((1, 5, 3), SpaceObject::BaseStation(8));
    galaxy.insert_space_object((9, 2, 3), SpaceObject::BaseStation(9));
    match galaxy.get_space_object((1, 2, 3)).as_deref() {
        Some(SpaceObject::BaseStation(7)) => {}
        other => panic!("unexpected {other:?}"),
    }
    match galaxy.get_space_object((1, 2, 4)).as_deref() {
        Some(SpaceObject::Planet(p)) => {
            assert_eq!(p.position, (1, 2, 4));
            assert_eq!(p.temperature(), 300);
            assert!(p.solid());
        }
        other => panic!("unexpected {other:?}"),
    }
    assert!(matches!(galaxy.get_space_object((1, 5, 3)).as_deref(), Some(SpaceObject::BaseStation(8))));
    assert!(matches!(galaxy.get_space_object((9, 2, 3)).as_deref(), Some(SpaceObject::BaseStation(9))));
    assert!(galaxy.get_space_object((1, 2, 5)).is_none());
    assert!(galaxy.get_space_object((2, 2, 3)).is_none());
}

#[test]
fn planet_scan_shows_position_temperature_and_kind() {
    let planet = Planet::new((4, 5, 6), 1234, false);
    let info = PlanetInfo::scan(1, &planet);
    assert_eq!(info, PlanetInfo { position: (4, 5, 6), temperature: 1234, solid: false });
}

#[test]
fn closest_planet_is_the_nearest_first_found() {
    let mut scan = ScanResult::empty();
    assert_eq!(scan.get_closest_planet(&(0, 0, 0)), None);
    let far = PlanetInfo { position: (100, 0, 0), temperature: 1, solid: true };
    let near = PlanetInfo { position: (0, 3, 4), temperature: 2, solid: false };
    let tie = PlanetInfo { position: (5, 0, 0), temperature: 3, solid: true };
    scan.planets.push(far);
    scan.planets.push(near);
    scan.planets.push(tie);
    scan.stations.push(StationInfo { id: 1, position: (0, 0, 1) });
    assert_eq!(scan.get_closest_planet(&(0, 0, 0)), Some(near));
    assert_eq!(scan.get_closest_planet(&(99, 0, 0)), Some(far));
    let big = PlanetInfo { position: (u32::MAX, u32::MAX, u32::MAX), temperature: 4, solid: true };
    scan.planets.push(big);
    assert_eq!(scan.get_closest_planet(&(u32::MAX, u32::MAX, 0)), Some(big));
}

#[test]
fn travel_goes_to_its_destination() {
    assert_eq!(Travel::new((1, 2, 3)).destination, (1, 2, 3));
}
