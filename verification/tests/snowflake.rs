use pinboard::guilds::{allowed_guilds, is_guild_allowed};
use pinboard::router::user_mention;
use pinboard::snowflake::{
    parse_range, parse_snowflake, parse_snowflake_from_env, parse_snowflakes_from_env,
};

#[test]
fn a_snowflake_is_a_decimal_number() {
    assert_eq!(parse_snowflake("0"), Some(0));
    assert_eq!(parse_snowflake("7"), Some(7));
    assert_eq!(parse_snowflake("1091969030694375444"), Some(1091969030694375444));
    assert_eq!(parse_snowflake("007"), Some(7));
    assert_eq!(parse_snowflake("+15"), Some(15));
}

#[test]
fn a_snowflake_fits_in_64_bits() {
    assert_eq!(parse_snowflake("18446744073709551615"), Some(u64::MAX));
    assert_eq!(parse_snowflake("18446744073709551616"), None);
    assert_eq!(parse_snowflake("99999999999999999999"), None);
    assert_eq!(parse_snowflake("184467440737095516150"), None);
    assert_eq!(parse_snowflake("00000000000000000000000018446744073709551615"), Some(u64::MAX));
}

#[test]
fn anything_else_is_no_snowflake() {
    assert_eq!(parse_snowflake(""), None);
    assert_eq!(parse_snowflake("+"), None);
    assert_eq!(parse_snowflake("-"), None);
    assert_eq!(parse_snowflake("-1"), None);
    assert_eq!(parse_snowflake("++1"), None);
    assert_eq!(parse_snowflake("1+"), None);
    assert_eq!(parse_snowflake(" 1"), None);
    assert_eq!(parse_snowflake("1 "), None);
    assert_eq!(parse_snowflake("12a"), None);
    assert_eq!(parse_snowflake("1_000"), None);
    assert_eq!(parse_snowflake("0x10"), None);
    assert_eq!(parse_snowflake("\u{661}"), None);
    assert_eq!(parse_snowflake("1,2"), None);
}

#[test]
fn parse_snowflake_agrees_with_std() {
    let texts = [
        "", "0", "1", "+", "-", "+0", "-0", "+1", "-1", "++1", "+-1", "12", "1 2", "a", "1a", "a1",
        "/", ":", "09", "18446744073709551615", "18446744073709551616", "+18446744073709551615",
        "28446744073709551615", "1844674407370955161", "٣", "1\u{e9}",
    ];
    for text in texts {
        assert_eq!(parse_snowflake(text), text.parse::<u64>().ok(), "{text:?}");
    }
}

#[test]
fn parse_range_reads_a_part() {
    let chars: Vec<char> = "12,+34,x".chars().collect();
    assert_eq!(parse_range(&chars, 0, 2), Some(12));
    assert_eq!(parse_range(&chars, 3, 6), Some(34));
    assert_eq!(parse_range(&chars, 4, 6), Some(34));
    assert_eq!(parse_range(&chars, 7, 8), None);
    assert_eq!(parse_range(&chars, 2, 2), None);
    assert_eq!(parse_range(&chars, 0, 3), None);
    assert_eq!(parse_range(&chars, 3, 4), None);
}

#[test]
fn a_variable_that_is_not_set_gives_nothing() {
    assert_eq!(parse_snowflake_from_env(None, |id| id), None);
    assert_eq!(parse_snowflakes_from_env(None, |id| id), None);
}

#[test]
fn a_snowflake_is_handed_to_the_function() {
    assert_eq!(parse_snowflake_from_env(Some("42"), |id| id), Some(42));
    assert_eq!(parse_snowflake_from_env(Some("42"), |id| format!("<{id}>")), Some("<42>".to_string()));
    assert_eq!(parse_snowflake_from_env(Some("forty-two"), |id| id), None);
    assert_eq!(parse_snowflake_from_env(Some(""), |id| id), None);
    assert_eq!(parse_snowflake_from_env(Some("1,2"), |id| id), None);
}

#[test]
fn snowflakes_are_separated_by_commas() {
    assert_eq!(parse_snowflakes_from_env(Some("1,2,3"), |id| id), Some(vec![1, 2, 3]));
    assert_eq!(parse_snowflakes_from_env(Some("5"), |id| id), Some(vec![5]));
    assert_eq!(
        parse_snowflakes_from_env(Some("1055663552679137310,1091969030694375444"), |id| id),
        Some(vec![1055663552679137310, 1091969030694375444])
    );
    assert_eq!(parse_snowflakes_from_env(Some("3,2,3"), |id| id * 2), Some(vec![6, 4, 6]));
}

#[test]
fn one_bad_part_spoils_the_list() {
    assert_eq!(parse_snowflakes_from_env(Some(""), |id| id), None);
    assert_eq!(parse_snowflakes_from_env(Some(","), |id| id), None);
    assert_eq!(parse_snowflakes_from_env(Some("1,,2"), |id| id), None);
    assert_eq!(parse_snowflakes_from_env(Some("1,2,"), |id| id), None);
    assert_eq!(parse_snowflakes_from_env(Some(",1,2"), |id| id), None);
    assert_eq!(parse_snowflakes_from_env(Some("1, 2"), |id| id), None);
    assert_eq!(parse_snowflakes_from_env(Some("1,x,3"), |id| id), None);
    assert_eq!(parse_snowflakes_from_env(Some("1,18446744073709551616"), |id| id), None);
}

#[test]
fn parse_snowflakes_agrees_with_split_and_parse() {
    let texts = [
        "", ",", ",,", "1", "1,2", "1,2,3", "+1,+2", "1,", ",1", "1,,2", "a", "1,a", "a,1", "10,20",
        "0,0,0", "18446744073709551615,0", "18446744073709551616,0", "1;2", "1 ,2",
    ];
    for text in texts {
        let expected: Option<Vec<u64>> =
            text.split(',').map(|part| part.parse::<u64>()).collect::<Result<Vec<_>, _>>().ok();
        assert_eq!(parse_snowflakes_from_env(Some(text), |id| id), expected, "{text:?}");
    }
}

#[test]
fn the_configured_guilds_are_allowed() {
    let allowed = allowed_guilds(Some("10,20,30"), vec![1, 2]);
    assert_eq!(allowed, vec![10, 20, 30]);
    assert!(is_guild_allowed(&allowed, 10));
    assert!(is_guild_allowed(&allowed, 30));
    assert!(!is_guild_allowed(&allowed, 1));
    assert!(!is_guild_allowed(&allowed, 0));
}

#[test]
fn the_fallback_guilds_are_allowed_without_a_configuration() {
    let fallback = vec![1055663552679137310, 1091969030694375444];
    let allowed = allowed_guilds(None, fallback.clone());
    assert_eq!(allowed, fallback);
    assert!(is_guild_allowed(&allowed, 1091969030694375444));
    assert!(!is_guild_allowed(&allowed, 10));

    let allowed = allowed_guilds(Some("10,twenty"), fallback.clone());
    assert_eq!(allowed, fallback);
    let allowed = allowed_guilds(Some(""), fallback.clone());
    assert_eq!(allowed, fallback);
}

#[test]
fn no_guild_is_allowed_by_an_empty_list() {
    assert!(!is_guild_allowed(&vec![], 1));
}

#[test]
fn what_is_written_in_decimal_reads_back() {
    for n in [0u64, 1, 9, 10, 99, 100, 12345, 1091969030694375444, u64::MAX - 1, u64::MAX] {
        assert_eq!(parse_snowflake(&pinboard::text::decimal_text(n)), Some(n));
        let mention = user_mention(n);
        assert_eq!(parse_snowflake(&mention[2..mention.len() - 1]), Some(n));
    }
}
