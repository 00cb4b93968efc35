//! Session identifiers: 128-bit values drawn at random, and the text form
//! that ties a join button back to its session.

use crate::text::{chars_of, string_of};
use vstd::arithmetic::power::pow;
use vstd::prelude::*;

verus! {

/// The lower-case hexadecimal digit for `d`.
pub open spec fn hex_char(d: int) -> char
    recommends
        0 <= d <= 15,
{
    if d == 0 {
        '0'
    } else if d == 1 {
        '1'
    } else if d == 2 {
        '2'
    } else if d == 3 {
        '3'
    } else if d == 4 {
        '4'
    } else if d == 5 {
        '5'
    } else if d == 6 {
        '6'
    } else if d == 7 {
        '7'
    } else if d == 8 {
        '8'
    } else if d == 9 {
        '9'
    } else if d == 10 {
        'a'
    } else if d == 11 {
        'b'
    } else if d == 12 {
        'c'
    } else if d == 13 {
        'd'
    } else if d == 14 {
        'e'
    } else {
        'f'
    }
}

/// Hexadecimal digit `k` of `id`, counted from the most significant of its
/// thirty-two digits.
pub open spec fn hex_digit_at(id: u128, k: int) -> int
    recommends
        0 <= k < 32,
{
    (id as int / pow(16, (31 - k) as nat)) % 16
}

/// How many hyphens stand before position `i` of the text form.
pub open spec fn hyphens_before(i: int) -> int {
    if i < 8 {
        0
    } else if i < 13 {
        1
    } else if i < 18 {
        2
    } else if i < 23 {
        3
    } else {
        4
    }
}

/// The text form of a session id: its thirty-two lower-case hexadecimal
/// digits in groups of 8, 4, 4, 4 and 12, with a hyphen between groups.
pub open spec fn uuid_text(id: u128) -> Seq<char> {
    Seq::new(
        36,
        |i: int|
            if i == 8 || i == 13 || i == 18 || i == 23 {
                '-'
            } else {
                hex_char(hex_digit_at(id, i - hyphens_before(i)))
            },
    )
}

/// What `Uuid::parse_str` makes of a text: the value it reads, or nothing
/// where it rejects the text.
pub uninterp spec fn parsed_uuid(text: Seq<char>) -> Option<u128>;

/// `Uuid::new_v4` from the uuid crate, as a 128-bit value. The value is
/// random; nothing is claimed of it.
#[verifier::external_body]
pub(crate) fn fresh_session_id() -> u128 {
    uuid::Uuid::new_v4().as_u128()
}

/// The `Display` form of `Uuid::from_u128(id)` from the uuid crate, which
/// is the hyphenated lower-case form.
#[verifier::external_body]
pub(crate) fn session_id_text(id: u128) -> (text: String)
    ensures
        text@ == uuid_text(id),
{
    uuid::Uuid::from_u128(id).to_string()
}

/// `Uuid::parse_str` from the uuid crate, with the value read given as a
/// 128-bit number. The crate documents that it reads back every form it
/// writes, the hyphenated one among them.
#[verifier::external_body]
pub(crate) fn parse_session_id(text: &str) -> (id: Option<u128>)
    ensures
        id == parsed_uuid(text@),
        forall|v: u128| text@ == uuid_text(v) ==> id == Some(v),
{
    match uuid::Uuid::parse_str(text) {
        Ok(value) => Some(value.as_u128()),
        Err(_) => None,
    }
}

/// The correlation token of the join button of session `id`.
pub open spec fn join_token(id: u128) -> Seq<char> {
    "lfg-"@ + uuid_text(id)
}

/// The session id that a correlation token names: what follows the prefix
/// `lfg-`, read as an id. A token without the prefix names none.
pub open spec fn token_session(token: Seq<char>) -> Option<u128> {
    if token.len() >= 4 && token.subrange(0, 4) == "lfg-"@ {
        parsed_uuid(token.subrange(4, token.len() as int))
    } else {
        None
    }
}

/// Reads the session id out of a correlation token. The token that
/// `join_token` writes for an id reads back as that id.
pub fn session_of_token(token: &str) -> (id: Option<u128>)
    ensures
        id == token_session(token@),
        forall|v: u128| token@ == join_token(v) ==> id == Some(v),
{
    proof {
        reveal_strlit("lfg-");
    }
    let chars = chars_of(token);
    if chars.len() < 4 || chars[0] != 'l' || chars[1] != 'f' || chars[2] != 'g' || chars[3] != '-' {
        assert(token@.len() >= 4 ==> token@.subrange(0, 4)[0] == token@[0] && token@.subrange(
            0,
            4,
        )[1] == token@[1] && token@.subrange(0, 4)[2] == token@[2] && token@.subrange(0, 4)[3]
            == token@[3]);
        assert forall|v: u128| token@ != join_token(v) by {
            if token@ == join_token(v) {
                assert(join_token(v).len() == 40);
                assert(join_token(v)[0] == 'l' && join_token(v)[1] == 'f' && join_token(v)[2]
                    == 'g' && join_token(v)[3] == '-');
            }
        }
        return None;
    }
    assert(token@.subrange(0, 4) =~= "lfg-"@);
    let mut rest: Vec<char> = Vec::new();
    let mut i: usize = 4;
    while i < chars.len()
        invariant
            4 <= i <= chars.len(),
            rest@ == chars@.subrange(4, i as int),
        decreases chars.len() - i,
    {
        rest.push(chars[i]);
        i += 1;
    }
    let text = string_of(&rest);
    let id = parse_session_id(text.as_str());
    assert forall|v: u128| token@ == join_token(v) implies id == Some(v) by {
        assert(join_token(v).subrange(4, 40) =~= uuid_text(v));
    }
    id
}

} // verus!
