//! What the game's HTTP client decides from the server's answers.
use serde_json::Value;
use vstd::prelude::*;

use crate::json::{
    as_text, as_u64, json_member, json_parsed, json_text, json_u64, json_without, member, parse_json,
    take_member,
};
use crate::text::{alphanumeric, chars_of, is_alphanumeric, lowercased, push_char, str_eq, to_lowercase};

verus! {

/// Whether an answer to a ping carries the text `pong`.
pub fn is_pong(reply: &Option<String>) -> (b: bool)
    ensures
        b == (reply matches Some(s) && s@ == "pong"@),
{
    match reply {
        Some(s) => str_eq(s.as_str(), "pong"),
        None => false,
    }
}

/// Whether some member of a station's crew, given by the names of their
/// roles, is a trader.
pub fn has_trader(member_types: &Vec<String>) -> (b: bool)
    ensures
        b == (exists|i: int| 0 <= i < member_types@.len() && #[trigger] member_types@[i]@ == "Trader"@),
{
    let mut i: usize = 0;
    while i < member_types.len()
        invariant
            i <= member_types@.len(),
            forall|j: int| 0 <= j < i ==> #[trigger] member_types@[j]@ != "Trader"@,
        decreases member_types@.len() - i,
    {
        if str_eq(member_types[i].as_str(), "Trader") {
            return true;
        }
        i = i + 1;
    }
    false
}

/// What the server's reply `body` means: the body must be a JSON object
/// with an `"error"` member; the rest of the object is the answer, a success
/// when that member is the text `ok` and a failure otherwise. `None` when
/// the body is not such an object.
pub open spec fn reply_of(body: Seq<char>) -> Option<Result<Value, Value>> {
    match json_parsed(body) {
        None => None,
        Some(v) => match json_member(v, "error"@) {
            None => None,
            Some(e) => {
                let rest = json_without(v, "error"@);
                if json_text(e) == Some("ok"@) {
                    Some(Ok(rest))
                } else {
                    Some(Err(rest))
                }
            },
        },
    }
}

/// Reads the server's reply `body`.
pub fn decode_reply(body: &str) -> (r: Option<Result<Value, Value>>)
    ensures
        r == reply_of(body@),
{
    let mut data = match parse_json(body) {
        Some(v) => v,
        None => return None,
    };
    let err = match take_member(&mut data, "error") {
        Some(e) => e,
        None => return None,
    };
    let ok = match as_text(&err) {
        Some(t) => str_eq(t.as_str(), "ok"),
        None => false,
    };
    if ok {
        Some(Ok(data))
    } else {
        Some(Err(data))
    }
}

/// The name a player plays under, made from the name it asked for: its
/// letters and digits, in order, in lower case.
pub open spec fn username_of(name: Seq<char>) -> Seq<char> {
    lowercased(name.filter(|c: char| alphanumeric(c)))
}

/// The name a player plays under, which also names the file its
/// credentials are kept in.
pub fn player_file_name(name: &str) -> (u: String)
    ensures
        u@ == username_of(name@),
{
    let v = chars_of(name);
    let ghost pred = |c: char| alphanumeric(c);
    let mut kept = String::new();
    let mut i: usize = 0;
    while i < v.len()
        invariant
            v@ == name@,
            i <= v@.len(),
            kept@ == v@.take(i as int).filter(pred),
            pred == (|c: char| alphanumeric(c)),
        decreases v@.len() - i,
    {
        let c = v[i];
        let keep = is_alphanumeric(c);
        proof {
            assert(v@.take(i + 1) =~= v@.take(i as int) + seq![c]);
            Seq::filter_distributes_over_add(v@.take(i as int), seq![c], pred);
            reveal_with_fuel(Seq::filter, 2);
        }
        if keep {
            push_char(&mut kept, c);
        }
        i = i + 1;
    }
    assert(v@.take(v@.len() as int) =~= v@);
    to_lowercase(kept.as_str())
}

/// A player's credentials in what the server answered to its registration:
/// the text of its `"key"` member and the number of its `"playerId"` member.
pub open spec fn credentials_in(v: Value) -> Option<(Seq<char>, u64)> {
    match (json_member(v, "key"@), json_member(v, "playerId"@)) {
        (Some(k), Some(i)) => match (json_text(k), json_u64(i)) {
            (Some(t), Some(n)) => Some((t, n)),
            _ => None,
        },
        _ => None,
    }
}

/// The player's key and identifier in its registration answer `player`.
pub fn credentials(player: &Value) -> (c: Option<(String, u64)>)
    ensures
        c matches Some((k, n)) ==> credentials_in(*player) == Some((k@, n)),
        c is None ==> credentials_in(*player) is None,
{
    let k = match member(player, "key") {
        Some(k) => k,
        None => return None,
    };
    let i = match member(player, "playerId") {
        Some(i) => i,
        None => return None,
    };
    match (as_text(&k), as_u64(&i)) {
        (Some(t), Some(n)) => Some((t, n)),
        _ => None,
    }
}

/// A player's credentials in the saved text of its registration answer.
pub open spec fn credentials_of(player_json: Seq<char>) -> Option<(Seq<char>, u64)> {
    match json_parsed(player_json) {
        None => None,
        Some(v) => credentials_in(v),
    }
}

/// The player's key and identifier in the saved text `player_json`.
pub fn player_credentials(player_json: &str) -> (c: Option<(String, u64)>)
    ensures
        c matches Some((k, n)) ==> credentials_of(player_json@) == Some((k@, n)),
        c is None ==> credentials_of(player_json@) is None,
{
    match parse_json(player_json) {
        Some(v) => credentials(&v),
        None => None,
    }
}

} // verus!
