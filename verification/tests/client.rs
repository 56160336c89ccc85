use serde_json::Value;
use simeis::client::{credentials, decode_reply, player_credentials, player_file_name};

fn parse(s: &str) -> Value {
    serde_json::from_str(s).unwrap()
}

#[test]
fn reply_with_ok_is_a_success_without_its_error_field() {
    let r = decode_reply(r#"{"error": "ok", "id": 4}"#);
    assert_eq!(r, Some(Ok(parse(r#"{"id": 4}"#))));
}

#[test]
fn reply_with_another_error_is_a_failure() {
    let r = decode_reply(r#"{"error": "Ship of id 4 not found", "type": "ShipNotFound"}"#);
    assert_eq!(r, Some(Err(parse(r#"{"type": "ShipNotFound"}"#))));
    let r = decode_reply(r#"{"error": 3}"#);
    assert_eq!(r, Some(Err(parse("{}"))));
}

#[test]
fn reply_that_is_not_an_object_with_an_error_field_is_refused() {
    assert_eq!(decode_reply("not json"), None);
    assert_eq!(decode_reply("[1, 2]"), None);
    assert_eq!(decode_reply(r#"{"id": 4}"#), None);
}

#[test]
fn player_names_keep_letters_and_digits_in_lower_case() {
    assert_eq!(player_file_name("John_Doe-42"), "johndoe42");
    assert_eq!(player_file_name("ÉLODIE!"), "élodie");
    assert_eq!(player_file_name("../etc"), "etc");
    assert_eq!(player_file_name(""), "");
}

#[test]
fn credentials_are_read_from_the_registration() {
    let saved = r#"{"playerId": 17, "key": "abc=="}"#;
    assert_eq!(player_credentials(saved), Some(("abc==".to_string(), 17)));
    assert_eq!(credentials(&parse(saved)), Some(("abc==".to_string(), 17)));
    assert_eq!(player_credentials(r#"{"playerId": 17}"#), None);
    assert_eq!(player_credentials(r#"{"playerId": "17", "key": "abc"}"#), None);
    assert_eq!(player_credentials(r#"{"playerId": 17, "key": 5}"#), None);
    assert_eq!(player_credentials("{"), None);
}
