use meme_bully::chance::DRAW_SCALE;
use meme_bully::config::{get_cringe_channels, parse_u64_field, Config, ConfigError};

fn parse(s: &str) -> Option<u64> {
    parse_u64_field(s.as_bytes(), 0, s.len())
}

#[test]
fn channel_ids_parse() {
    assert_eq!(parse("0"), Some(0));
    assert_eq!(parse("+17"), Some(17));
    assert_eq!(parse("007"), Some(7));
    assert_eq!(parse("18446744073709551615"), Some(u64::MAX));
    assert_eq!(parse("18446744073709551616"), None);
    assert_eq!(parse("99999999999999999999"), None);
    assert_eq!(parse(""), None);
    assert_eq!(parse("+"), None);
    assert_eq!(parse("-1"), None);
    assert_eq!(parse(" 1"), None);
    assert_eq!(parse("12a"), None);
    assert_eq!(parse_u64_field(b"x123y", 1, 4), Some(123));
}

#[test]
fn cringe_channels_list() {
    assert_eq!(get_cringe_channels(None), Ok(vec![]));
    assert_eq!(get_cringe_channels(Some("")), Ok(vec![]));
    assert_eq!(get_cringe_channels(Some("5")), Ok(vec![5]));
    assert_eq!(
        get_cringe_channels(Some("123456789012345678,42,+7")),
        Ok(vec![123456789012345678, 42, 7])
    );
}

#[test]
fn malformed_cringe_channels_are_fatal() {
    for raw in ["abc", "1,x", "1,,2", "1,", ",1", "1, 2", "18446744073709551616", "-3"] {
        assert_eq!(get_cringe_channels(Some(raw)), Err(ConfigError::BadCringeChannel), "{}", raw);
    }
}

fn assemble(
    token: Option<&str>,
    bully: Option<u64>,
    channels: Option<&str>,
    cringe: Option<u64>,
) -> Result<Config, ConfigError> {
    Config::assemble(vec!["a.mp4".to_string()], token.map(|t| t.to_string()), bully, channels, cringe)
}

#[test]
fn assemble_reports_each_problem() {
    let e = |r: Result<Config, ConfigError>| r.err().unwrap();
    assert_eq!(e(assemble(None, Some(1), None, None)), ConfigError::MissingToken);
    assert_eq!(e(assemble(Some(""), Some(1), None, None)), ConfigError::EmptyToken);
    assert_eq!(e(assemble(Some("t"), None, None, None)), ConfigError::MissingBullyChance);
    assert_eq!(e(assemble(Some("t"), Some(DRAW_SCALE + 1), None, None)), ConfigError::BullyChanceOutOfRange);
    assert_eq!(e(assemble(Some("t"), Some(1), Some("1,q"), None)), ConfigError::BadCringeChannel);
    assert_eq!(e(assemble(Some("t"), Some(1), Some("1"), Some(DRAW_SCALE + 1))), ConfigError::CringeChanceOutOfRange);
}

#[test]
fn assemble_fills_defaults_and_values() {
    let c = assemble(Some("SECRET-REDACTED"), Some(DRAW_SCALE / 2), None, None).unwrap();
    assert_eq!(c.token, "SECRET-REDACTED");
    assert_eq!(c.bully_chance.ticks, DRAW_SCALE / 2);
    assert_eq!(c.cringe_chance.ticks, 0);
    assert!(c.cringe_channels.is_empty());
    assert_eq!(c.assets, vec!["a.mp4".to_string()]);
    let c = assemble(Some("t"), Some(DRAW_SCALE), Some("9,10"), Some(DRAW_SCALE)).unwrap();
    assert_eq!(c.cringe_channels, vec![9, 10]);
    assert_eq!(c.cringe_chance.ticks, DRAW_SCALE);
    let (token, h) = c.into_handler();
    assert_eq!(token, "t");
    assert_eq!(h.cringe_channels, vec![9, 10]);
    assert!(h.is_cringe_channel(10));
    assert!(!h.is_cringe_channel(11));
}
