use simeis::crew::CrewMemberType;
use simeis::errors::Errcode;

#[test]
fn messages_name_what_was_refused() {
    assert_eq!(Errcode::NoPlayerKey.errmsg(), "No player key provided with the request");
    assert_eq!(Errcode::PlayerNotFound(42).errmsg(), "No player was found with this ID: 42");
    assert_eq!(
        Errcode::PlayerAlreadyExists("bob".to_string()).errmsg(),
        "Player bob already exists"
    );
    assert_eq!(Errcode::ShipNotFound(18446744073709551615).errmsg(), "Ship of id 18446744073709551615 not found");
    assert_eq!(Errcode::ShipNotFound(0).errmsg(), "Ship of id 0 not found");
    assert_eq!(Errcode::InvalidArgument("crewtype").errmsg(), "Argument crewtype has an invalid value");
    assert_eq!(Errcode::CrewMemberNotIdle(7).errmsg(), "Crew member 7 is already occupied");
    assert_eq!(Errcode::NoSuchStation(65535).errmsg(), "You don't own any station of id 65535");
    assert_eq!(Errcode::NoSuchModule(3).errmsg(), "Ship module of id 3 doesn't exist");
    assert_eq!(
        Errcode::WrongCrewType(CrewMemberType::Pilot).errmsg(),
        "This module requires a crew member of type Pilot"
    );
    assert_eq!(Errcode::CrewMemberNotFound(10).errmsg(), "Crew member of id 10 not found");
    assert_eq!(Errcode::PlayerLost.errmsg(), "This player lost the game and cannot play anymore");
    assert_eq!(Errcode::NoPilotAssigned.errmsg(), "No pilot is assigned on this ship");
    assert_eq!(Errcode::CargoFull.errmsg(), "The cargo is full");
}
