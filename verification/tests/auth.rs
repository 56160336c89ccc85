use simeis::auth::get_player_key;

fn encoded_key() -> (String, [u8; 128]) {
    let mut key = [0u8; 128];
    for (i, b) in key.iter_mut().enumerate() {
        *b = (i * 7 + 3) as u8;
    }
    // Standard base64 of the 128 bytes above, computed by hand-rolled code so
    // that the test does not lean on the crate under test.
    const TABLE: &[u8] = b"ABCDEFGHIJKLMNOPQRSTUVWXYZabcdefghijklmnopqrstuvwxyz0123456789+/";
    let mut out = String::new();
    for chunk in key.chunks(3) {
        let b = [chunk[0], *chunk.get(1).unwrap_or(&0), *chunk.get(2).unwrap_or(&0)];
        let n = ((b[0] as u32) << 16) | ((b[1] as u32) << 8) | (b[2] as u32);
        out.push(TABLE[(n >> 18) as usize & 63] as char);
        out.push(TABLE[(n >> 12) as usize & 63] as char);
        out.push(if chunk.len() > 1 { TABLE[(n >> 6) as usize & 63] as char } else { '=' });
        out.push(if chunk.len() > 2 { TABLE[n as usize & 63] as char } else { '=' });
    }
    (out, key)
}

fn percent_encode(s: &str) -> String {
    s.replace('+', "%2B").replace('/', "%2F").replace('=', "%3D")
}

#[test]
fn key_is_read_from_the_query() {
    let (b64, key) = encoded_key();
    let q = format!("key={}", percent_encode(&b64));
    assert_eq!(get_player_key(&q), Some(key));
    let q = format!("a=1&key={}&b=2", percent_encode(&b64));
    assert_eq!(get_player_key(&q), Some(key));
}

#[test]
fn padding_left_raw_cuts_the_key_short() {
    let (b64, _) = encoded_key();
    assert!(b64.ends_with('='));
    let q = format!("key={}", b64.replace('+', "%2B").replace('/', "%2F"));
    assert_eq!(get_player_key(&q), None);
}

#[test]
fn undecodable_key_parts_are_skipped() {
    let (b64, key) = encoded_key();
    let q = format!("key=%%%&key=not-base64&key={}", percent_encode(&b64));
    assert_eq!(get_player_key(&q), Some(key));
    assert_eq!(get_player_key("a=1&b=2"), None);
    assert_eq!(get_player_key(""), None);
    assert_eq!(get_player_key("mykey=abc"), None);
}
