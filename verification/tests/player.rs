use simeis::errors::Errcode;
use simeis::player::check_name_free;

#[test]
fn taken_names_are_refused() {
    let taken = vec!["alice".to_string(), "bob".to_string()];
    assert_eq!(check_name_free("carol".to_string(), &taken), Ok("carol".to_string()));
    assert_eq!(
        check_name_free("bob".to_string(), &taken),
        Err(Errcode::PlayerAlreadyExists("bob".to_string()))
    );
    assert_eq!(check_name_free("Bob".to_string(), &taken), Ok("Bob".to_string()));
    assert_eq!(check_name_free("x".to_string(), &Vec::new()), Ok("x".to_string()));
}
