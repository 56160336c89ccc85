use vstd::prelude::*;

use base64::Engine;

use crate::player::PlayerKey;
use crate::text::{chars_of, find_from, index_of_or_len, lemma_index_from_scan, push_char};

verus! {

/// What `urlencoding::decode` makes of `s`: the percent-decoded text, or
/// `None` when the decoded bytes are not UTF-8.
pub uninterp spec fn url_decoded(s: Seq<char>) -> Option<Seq<char>>;

/// What decoding `s` as standard padded base64 into a zeroed buffer of a
/// player key's size gives: the buffer, or `None` when `s` is not valid
/// base64 or does not fit.
pub uninterp spec fn base64_key_decoded(s: Seq<char>) -> Option<Seq<u8>>;

/// Percent-decodes `s` with `urlencoding::decode`.
#[verifier::external_body]
fn url_decode(s: &str) -> (d: Option<String>)
    ensures
        d matches Some(t) ==> url_decoded(s@) == Some(t@),
        d is None ==> url_decoded(s@) is None,
{
    match urlencoding::decode(s) {
        Ok(t) => Some(t.into_owned()),
        Err(_) => None,
    }
}

/// Decodes `s` as standard base64 into a zeroed buffer of a player key's
/// size, with `Engine::decode_slice` of the base64 crate.
#[verifier::external_body]
fn base64_decode_key(s: &str) -> (k: Option<PlayerKey>)
    ensures
        k matches Some(key) ==> base64_key_decoded(s@) == Some(key@),
        k is None ==> base64_key_decoded(s@) is None,
{
    let mut key = [0u8; 128];
    match base64::prelude::BASE64_STANDARD.decode_slice(s.as_bytes(), &mut key) {
        Ok(_) => Some(key),
        Err(_) => None,
    }
}

/// The player key that one `&`-separated part of a query string carries:
/// the part must start with `key=`; what follows, up to the next `=`, is
/// percent-decoded, then decoded from base64.
pub open spec fn key_of_part(part: Seq<char>) -> Option<Seq<u8>> {
    if part.len() >= 4 && part.take(4) == "key="@ {
        let rest = part.skip(4);
        let value = rest.take(index_of_or_len(rest, '=') as int);
        match url_decoded(value) {
            Some(d) => base64_key_decoded(d),
            None => None,
        }
    } else {
        None
    }
}

/// The player key carried by the first part of the query string `q` that
/// carries one; parts are separated by `&`.
pub open spec fn key_of_query(q: Seq<char>) -> Option<Seq<u8>>
    decreases q.len(),
{
    let end = index_of_or_len(q, '&') as int;
    if key_of_part(q.take(end)) is Some {
        key_of_part(q.take(end))
    } else if end >= q.len() {
        None
    } else {
        key_of_query(q.skip(end + 1))
    }
}

/// The key carried by the part `v[start..end]` of a query string.
fn key_of_range(v: &Vec<char>, start: usize, end: usize) -> (k: Option<PlayerKey>)
    requires
        start <= end <= v@.len(),
    ensures
        k matches Some(key) ==> key_of_part(v@.subrange(start as int, end as int)) == Some(key@),
        k is None ==> key_of_part(v@.subrange(start as int, end as int)) is None,
{
    let ghost part = v@.subrange(start as int, end as int);
    if end - start < 4 {
        return None;
    }
    if !(v[start] == 'k' && v[start + 1] == 'e' && v[start + 2] == 'y' && v[start + 3] == '=') {
        proof {
            reveal_strlit("key=");
            if part.take(4) == "key="@ {
                assert(part.take(4)[0] == 'k');
                assert(part.take(4)[1] == 'e');
                assert(part.take(4)[2] == 'y');
                assert(part.take(4)[3] == '=');
            }
        }
        return None;
    }
    proof {
        reveal_strlit("key=");
        assert(part.take(4) =~= "key="@);
    }
    let vstart = start + 4;
    let vend = find_from(v, vstart, '=');
    let vend = if vend < end { vend } else { end };
    let mut value = String::new();
    let mut i = vstart;
    while i < vend
        invariant
            vstart <= i <= vend <= end <= v@.len(),
            value@ == v@.subrange(vstart as int, i as int),
        decreases vend - i,
    {
        push_char(&mut value, v[i]);
        assert(value@ =~= v@.subrange(vstart as int, i + 1));
        i = i + 1;
    }
    proof {
        let rest = part.skip(4);
        assert(rest =~= v@.subrange(vstart as int, end as int));
        assert(forall|j: int| 0 <= j < vend - vstart ==> rest[j] == v@[vstart + j]);
        lemma_index_from_scan(rest, '=', vend - vstart);
        assert(rest.take(vend - vstart) =~= value@);
    }
    let decoded = match url_decode(value.as_str()) {
        Some(d) => d,
        None => {
            return None;
        },
    };
    base64_decode_key(decoded.as_str())
}

/// Finds the player key in a request's query string: the first `&`-separated
/// part that starts with `key=` and whose value, percent-decoded, is a valid
/// base64 player key. Parts whose value does not decode are skipped.
pub fn get_player_key(query: &str) -> (k: Option<PlayerKey>)
    ensures
        k matches Some(key) ==> key_of_query(query@) == Some(key@),
        k is None ==> key_of_query(query@) is None,
{
    let v = chars_of(query);
    let mut start: usize = 0;
    assert(v@.skip(0) =~= v@);
    loop
        invariant
            v@ == query@,
            start <= v@.len(),
            key_of_query(query@) == key_of_query(v@.skip(start as int)),
        decreases v@.len() - start,
    {
        let end = find_from(&v, start, '&');
        let ghost rest = v@.skip(start as int);
        proof {
            assert forall|j: int| 0 <= j < end - start implies rest[j] != '&' by {
                assert(rest[j] == v@[start + j]);
            }
            if end < v@.len() {
                assert(rest[end - start] == v@[end as int]);
            }
            lemma_index_from_scan(rest, '&', end - start);
            assert(rest.take(end - start) =~= v@.subrange(start as int, end as int));
        }
        match key_of_range(&v, start, end) {
            Some(key) => {
                return Some(key);
            },
            None => {},
        }
        if end >= v.len() {
            return None;
        }
        proof {
            assert(rest.skip(end - start + 1) =~= v@.skip(end + 1));
        }
        start = end + 1;
    }
}

} // verus!
