use chair::trigger::{find_alias, find_ratio, message_format};
use chair::util::coerce_into_u64;

const FACADE: u64 = 1069644995780423731;
const ACTUAL: u64 = 1069645017414631474;

fn table() -> Vec<(Vec<u8>, Vec<u8>)> {
    vec![(FACADE.to_be_bytes().to_vec(), ACTUAL.to_be_bytes().to_vec())]
}

fn ratio_of(text: &str) -> Option<(u8, u8)> {
    find_ratio(&text.chars().collect())
}

#[test]
fn coerce_reads_eight_bytes_big_endian() {
    assert_eq!(coerce_into_u64(&[0, 0, 0, 0, 0, 0, 0, 1]), 1);
    assert_eq!(coerce_into_u64(&[0, 0, 0, 0, 0, 0, 1, 0]), 256);
    assert_eq!(coerce_into_u64(&[1, 2, 3, 4, 5, 6, 7, 8]), 0x0102030405060708);
    assert_eq!(coerce_into_u64(&[0xff; 8]), u64::MAX);
    assert_eq!(coerce_into_u64(&FACADE.to_be_bytes()), FACADE);
}

#[test]
fn coerce_reads_a_short_slice_as_zero() {
    assert_eq!(coerce_into_u64(&[]), 0);
    assert_eq!(coerce_into_u64(&[1, 2, 3, 4, 5, 6, 7]), 0);
}

#[test]
fn coerce_ignores_what_follows_the_eighth_byte() {
    assert_eq!(coerce_into_u64(&[0, 0, 0, 0, 0, 0, 0, 7, 9, 9]), 7);
}

#[test]
fn coerce_agrees_with_from_be_bytes() {
    let mut seed: u64 = 0x9e3779b97f4a7c15;
    for _ in 0..200 {
        seed = seed.wrapping_mul(6364136223846793005).wrapping_add(1442695040888963407);
        assert_eq!(coerce_into_u64(&seed.to_be_bytes()), seed);
    }
}

#[test]
fn alias_with_ratio_parses() {
    let content = format!("<@&{}> 2/4", FACADE);
    assert_eq!(message_format(&content, &table()), Some((2, 4, FACADE, ACTUAL)));
}

#[test]
fn alias_alone_gives_the_sentinel() {
    let content = format!("<@&{}>", FACADE);
    assert_eq!(message_format(&content, &table()), Some((0, 0, FACADE, ACTUAL)));
}

#[test]
fn text_without_alias_is_no_trigger() {
    assert_eq!(message_format("anyone up for a game? 2/4", &table()), None);
    assert_eq!(message_format("<@&1234> 2/4", &table()), None);
}

#[test]
fn empty_table_matches_nothing() {
    assert_eq!(message_format("<@&1069644995780423731> 2/4", &Vec::new()), None);
}

#[test]
fn short_text_is_no_trigger() {
    let table = vec![(7u64.to_be_bytes().to_vec(), 8u64.to_be_bytes().to_vec())];
    assert_eq!(message_format("", &table), None);
    assert_eq!(message_format("7", &table), None);
    assert_eq!(message_format("77", &table), None);
    assert_eq!(message_format("777", &table), Some((0, 0, 7, 8)));
}

#[test]
fn length_is_counted_in_characters() {
    let table = vec![(7u64.to_be_bytes().to_vec(), 8u64.to_be_bytes().to_vec())];
    assert_eq!(message_format("é7", &table), None);
    assert_eq!(message_format("éé7", &table), Some((0, 0, 7, 8)));
}

#[test]
fn first_alias_of_the_table_wins() {
    let table = vec![
        (5u64.to_be_bytes().to_vec(), 50u64.to_be_bytes().to_vec()),
        (12u64.to_be_bytes().to_vec(), 120u64.to_be_bytes().to_vec()),
        (34u64.to_be_bytes().to_vec(), 340u64.to_be_bytes().to_vec()),
    ];
    assert_eq!(message_format("role 34 and 12, 1/3", &table), Some((1, 3, 12, 120)));
    assert_eq!(message_format("role 34 only", &table), Some((0, 0, 34, 340)));
    assert_eq!(message_format("role 5 and 34", &table), Some((0, 0, 5, 50)));
}

#[test]
fn alias_digits_match_inside_longer_numbers() {
    let table = vec![(12u64.to_be_bytes().to_vec(), 99u64.to_be_bytes().to_vec())];
    assert_eq!(message_format("id 123 here", &table), Some((0, 0, 12, 99)));
}

#[test]
fn short_stored_key_reads_as_zero() {
    let table = vec![(vec![1, 2, 3], vec![0, 0, 0, 0, 0, 0, 0, 9])];
    assert_eq!(message_format("10 players", &table), Some((0, 0, 0, 9)));
    assert_eq!(message_format("no digits", &table), None);
}

#[test]
fn find_alias_gives_the_index() {
    let table = vec![
        (5u64.to_be_bytes().to_vec(), 50u64.to_be_bytes().to_vec()),
        (12u64.to_be_bytes().to_vec(), 120u64.to_be_bytes().to_vec()),
    ];
    assert_eq!(find_alias(&"a 12 b".chars().collect(), &table), Some(1));
    assert_eq!(find_alias(&"a 125 b".chars().collect(), &table), Some(0));
    assert_eq!(find_alias(&"a b".chars().collect(), &table), None);
}

#[test]
fn ratio_takes_one_or_two_digits() {
    assert_eq!(ratio_of("2/4"), Some((2, 4)));
    assert_eq!(ratio_of("12/34"), Some((12, 34)));
    assert_eq!(ratio_of("1/10"), Some((1, 10)));
    assert_eq!(ratio_of("10/2"), Some((10, 2)));
    assert_eq!(ratio_of("99/99"), Some((99, 99)));
    assert_eq!(ratio_of("0/0"), Some((0, 0)));
    assert_eq!(ratio_of("07/08"), Some((7, 8)));
}

#[test]
fn ratio_is_the_leftmost() {
    assert_eq!(ratio_of("a 1/2 b 3/4"), Some((1, 2)));
    assert_eq!(ratio_of("123/456"), Some((23, 45)));
    assert_eq!(ratio_of("1/2/3"), Some((1, 2)));
    assert_eq!(ratio_of("x/1/2"), Some((1, 2)));
    assert_eq!(ratio_of("12/3456/7"), Some((12, 34)));
}

#[test]
fn ratio_needs_digits_on_both_sides() {
    assert_eq!(ratio_of(""), None);
    assert_eq!(ratio_of("2/"), None);
    assert_eq!(ratio_of("/4"), None);
    assert_eq!(ratio_of("2 / 4"), None);
    assert_eq!(ratio_of("12/"), None);
    assert_eq!(ratio_of("a/b"), None);
    assert_eq!(ratio_of("24"), None);
}

#[test]
fn ratio_with_zero_denominator_is_read() {
    let content = format!("<@&{}> 2/0", FACADE);
    assert_eq!(message_format(&content, &table()), Some((2, 0, FACADE, ACTUAL)));
}

#[test]
fn ratio_may_stand_inside_the_alias_digits() {
    let table = vec![(12u64.to_be_bytes().to_vec(), 99u64.to_be_bytes().to_vec())];
    assert_eq!(message_format("12/5", &table), Some((12, 5, 12, 99)));
}

#[test]
fn ratio_agrees_with_the_regular_expression() {
    let pattern = regex::Regex::new(r"(\d{1,2})/(\d{1,2})").unwrap();
    let alphabet: Vec<char> = "0123456789// ab".chars().collect();
    let mut seed: u64 = 12345;
    for _ in 0..4000 {
        let mut text = String::new();
        seed = seed.wrapping_mul(6364136223846793005).wrapping_add(1442695040888963407);
        let length = (seed >> 33) % 12;
        for _ in 0..length {
            seed = seed.wrapping_mul(6364136223846793005).wrapping_add(1442695040888963407);
            text.push(alphabet[((seed >> 33) % alphabet.len() as u64) as usize]);
        }
        let expected = pattern.captures(&text).map(|found| {
            (found[1].parse::<u8>().unwrap(), found[2].parse::<u8>().unwrap())
        });
        assert_eq!(ratio_of(&text), expected, "text {:?}", text);
    }
}
