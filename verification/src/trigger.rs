//! The trigger parser: decides whether a chat message asks for a group,
//! which role alias it names and which fill ratio it states.

use crate::text::{chars_of, contains_text, decimal, decimal_chars, has_text};
use crate::util::{coerce_into_u64, coerced_u64};
use vstd::prelude::*;

verus! {

/// Whether `c` is one of the ten digits `0` to `9`.
pub open spec fn is_digit(c: char) -> bool {
    48 <= c as u32 <= 57
}

/// The number that the digit `c` stands for.
pub open spec fn digit_value(c: char) -> int
    recommends
        is_digit(c),
{
    c as u32 - 48
}

/// The number written at offset `k` of `s`: two digits where two stand
/// there, one otherwise.
pub open spec fn number_at(s: Seq<char>, k: int) -> int
    recommends
        0 <= k < s.len(),
        is_digit(s[k]),
{
    if k + 1 < s.len() && is_digit(s[k + 1]) {
        10 * digit_value(s[k]) + digit_value(s[k + 1])
    } else {
        digit_value(s[k])
    }
}

/// The ratio that starts exactly at offset `i` of `s`: one or two digits, a
/// slash, one or two digits. The numerator takes two digits only where the
/// slash follows them; the denominator takes two wherever two stand there.
pub open spec fn ratio_at(s: Seq<char>, i: int) -> Option<(u8, u8)> {
    if 0 <= i && i + 3 < s.len() && is_digit(s[i]) && is_digit(s[i + 1]) && s[i + 2] == '/'
        && is_digit(s[i + 3]) {
        Some(((10 * digit_value(s[i]) + digit_value(s[i + 1])) as u8, number_at(s, i + 3) as u8))
    } else if 0 <= i && i + 2 < s.len() && is_digit(s[i]) && s[i + 1] == '/' && is_digit(
        s[i + 2],
    ) {
        Some((digit_value(s[i]) as u8, number_at(s, i + 2) as u8))
    } else {
        None
    }
}

/// Whether the leftmost ratio of `s` starts at offset `i`.
pub open spec fn leftmost_ratio(s: Seq<char>, i: int) -> bool {
    &&& ratio_at(s, i) is Some
    &&& forall|j: int| 0 <= j < i ==> ratio_at(s, j) is None
}

/// The leftmost ratio written in `s`, if there is one.
pub open spec fn first_ratio(s: Seq<char>) -> Option<(u8, u8)> {
    if exists|i: int| leftmost_ratio(s, i) {
        ratio_at(s, choose|i: int| leftmost_ratio(s, i))
    } else {
        None
    }
}

fn digit_at(s: &Vec<char>, k: usize) -> (d: Option<u8>)
    ensures
        d is Some <==> k < s.len() && is_digit(s@[k as int]),
        d is Some ==> d->0 == digit_value(s@[k as int]) && d->0 <= 9,
{
    if k >= s.len() {
        return None;
    }
    let v: u32 = s[k] as u32;
    if 48 <= v && v <= 57 {
        Some((v - 48) as u8)
    } else {
        None
    }
}

fn read_number(s: &Vec<char>, k: usize, first: u8) -> (n: u8)
    requires
        k < s.len(),
        is_digit(s@[k as int]),
        first == digit_value(s@[k as int]),
    ensures
        n == number_at(s@, k as int),
        n <= 99,
{
    if k + 1 < s.len() {
        match digit_at(s, k + 1) {
            Some(second) => 10 * first + second,
            None => first,
        }
    } else {
        first
    }
}

fn read_ratio(s: &Vec<char>, i: usize) -> (r: Option<(u8, u8)>)
    requires
        i < s.len(),
    ensures
        r == ratio_at(s@, i as int),
        r matches Some(p) ==> p.0 <= 99 && p.1 <= 99,
{
    let n: usize = s.len();
    let first: u8 = match digit_at(s, i) {
        Some(d) => d,
        None => { return None; },
    };
    if n - i < 3 {
        return None;
    }
    match digit_at(s, i + 1) {
        Some(second) => {
            if n - i < 4 || s[i + 2] != '/' {
                return None;
            }
            match digit_at(s, i + 3) {
                Some(d) => Some((10 * first + second, read_number(s, i + 3, d))),
                None => None,
            }
        },
        None => {
            if s[i + 1] != '/' {
                return None;
            }
            match digit_at(s, i + 2) {
                Some(d) => Some((first, read_number(s, i + 2, d))),
                None => None,
            }
        },
    }
}

/// Finds the leftmost ratio in `s`.
pub fn find_ratio(s: &Vec<char>) -> (r: Option<(u8, u8)>)
    ensures
        r == first_ratio(s@),
        r matches Some(p) ==> p.0 <= 99 && p.1 <= 99,
{
    let mut i: usize = 0;
    while i < s.len()
        invariant
            i <= s.len(),
            forall|j: int| 0 <= j < i ==> ratio_at(s@, j) is None,
        decreases s.len() - i,
    {
        let here = read_ratio(s, i);
        if here.is_some() {
            assert(leftmost_ratio(s@, i as int));
            return here;
        }
        i += 1;
    }
    assert(forall|j: int| ratio_at(s@, j) is None);
    None
}

/// The facade role id that a stored alias entry is keyed by.
pub open spec fn alias_facade(entry: (Vec<u8>, Vec<u8>)) -> u64 {
    coerced_u64(entry.0@) as u64
}

/// The real role id that a stored alias entry resolves to.
pub open spec fn alias_actual(entry: (Vec<u8>, Vec<u8>)) -> u64 {
    coerced_u64(entry.1@) as u64
}

/// Whether entry `i` of the alias table is named in `content`: its facade
/// id, written in decimal, stands somewhere in the text.
pub open spec fn alias_named(content: Seq<char>, aliases: Seq<(Vec<u8>, Vec<u8>)>, i: int) -> bool {
    &&& 0 <= i < aliases.len()
    &&& contains_text(content, decimal(alias_facade(aliases[i]) as nat))
}

/// Whether entry `i` is the first entry of the table that `content` names.
pub open spec fn first_alias_named(
    content: Seq<char>,
    aliases: Seq<(Vec<u8>, Vec<u8>)>,
    i: int,
) -> bool {
    &&& alias_named(content, aliases, i)
    &&& forall|j: int| 0 <= j < i ==> !alias_named(content, aliases, j)
}

/// What a message parses to. Text of fewer than three characters, or text
/// that names no alias of the table, is no trigger. Otherwise the result
/// holds the leftmost ratio of the text, or `(0, 0)` where it states none,
/// and the facade and real role ids of the first alias named.
pub open spec fn trigger_of(content: Seq<char>, aliases: Seq<(Vec<u8>, Vec<u8>)>) -> Option<
    (u8, u8, u64, u64),
> {
    if content.len() < 3 {
        None
    } else if exists|i: int| first_alias_named(content, aliases, i) {
        let i = choose|i: int| first_alias_named(content, aliases, i);
        let ratio = match first_ratio(content) {
            Some(r) => r,
            None => (0u8, 0u8),
        };
        Some((ratio.0, ratio.1, alias_facade(aliases[i]), alias_actual(aliases[i])))
    } else {
        None
    }
}

/// Finds the first entry of the alias table that `content` names.
pub fn find_alias(content: &Vec<char>, mention_types: &Vec<(Vec<u8>, Vec<u8>)>) -> (found: Option<
    usize,
>)
    ensures
        match found {
            Some(i) => first_alias_named(content@, mention_types@, i as int),
            None => forall|i: int| !alias_named(content@, mention_types@, i),
        },
{
    let mut i: usize = 0;
    while i < mention_types.len()
        invariant
            i <= mention_types.len(),
            forall|j: int| 0 <= j < i ==> !alias_named(content@, mention_types@, j),
        decreases mention_types.len() - i,
    {
        let key: u64 = coerce_into_u64(mention_types[i].0.as_slice());
        let digits = decimal_chars(key);
        if has_text(content, &digits) {
            return Some(i);
        }
        i += 1;
    }
    None
}

/// Parses a message against the alias table, whose entries are the stored
/// key and value bytes in the order in which the table was read.
pub fn message_format(content: &str, mention_types: &Vec<(Vec<u8>, Vec<u8>)>) -> (parsed: Option<
    (u8, u8, u64, u64),
>)
    ensures
        parsed == trigger_of(content@, mention_types@),
        parsed matches Some(p) ==> p.0 <= 99 && p.1 <= 99,
{
    let chars = chars_of(content);
    if chars.len() < 3 {
        return None;
    }
    let i: usize = match find_alias(&chars, mention_types) {
        Some(i) => i,
        None => { return None; },
    };
    let facade: u64 = coerce_into_u64(mention_types[i].0.as_slice());
    let actual: u64 = coerce_into_u64(mention_types[i].1.as_slice());
    match find_ratio(&chars) {
        Some((numerator, denominator)) => Some((numerator, denominator, facade, actual)),
        None => Some((0, 0, facade, actual)),
    }
}

} // verus!
