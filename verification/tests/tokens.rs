use airspace_settings::model::{AirType, Format, Overlay};
use airspace_settings::token::{get_airtype, get_format, get_overlay, is_token, parse_level};

#[test]
fn airtype_tokens_map_to_their_types() {
    assert_eq!(get_airtype("classd"), Some(AirType::ClassD));
    assert_eq!(get_airtype("classf"), Some(AirType::ClassF));
    assert_eq!(get_airtype("classg"), Some(AirType::ClassG));
    assert_eq!(get_airtype("ctr"), Some(AirType::Ctr));
    assert_eq!(get_airtype("danger"), Some(AirType::Danger));
    assert_eq!(get_airtype("restricted"), Some(AirType::Restricted));
    assert_eq!(get_airtype("gsec"), Some(AirType::Gliding));
}

#[test]
fn other_airtype_tokens_map_to_none() {
    assert_eq!(get_airtype(""), None);
    assert_eq!(get_airtype("bogus"), None);
    assert_eq!(get_airtype("classa"), None);
    assert_eq!(get_airtype("classb"), None);
    assert_eq!(get_airtype("classc"), None);
    assert_eq!(get_airtype("classe"), None);
    assert_eq!(get_airtype("matz"), None);
    assert_eq!(get_airtype("prohibited"), None);
    assert_eq!(get_airtype("gliding"), None);
    assert_eq!(get_airtype("CTR"), None);
    assert_eq!(get_airtype("ctr "), None);
    assert_eq!(get_airtype(" ctr"), None);
    assert_eq!(get_airtype("ct"), None);
}

#[test]
fn overlay_tokens() {
    assert_eq!(get_overlay("fl195"), Some(Overlay::FL195));
    assert_eq!(get_overlay("fl105"), Some(Overlay::FL105));
    assert_eq!(get_overlay("atzdz"), Some(Overlay::AtzDz));
    assert_eq!(get_overlay(""), None);
    assert_eq!(get_overlay("none"), None);
    assert_eq!(get_overlay("FL195"), None);
}

#[test]
fn format_tokens() {
    assert_eq!(get_format("ratonly"), Format::RatOnly);
    assert_eq!(get_format("competition"), Format::Competition);
    assert_eq!(get_format("openair"), Format::OpenAir);
    assert_eq!(get_format("xyz"), Format::OpenAir);
    assert_eq!(get_format(""), Format::OpenAir);
    assert_eq!(get_format("RatOnly"), Format::OpenAir);
}

#[test]
fn token_match_is_exact() {
    assert!(is_token(&String::from("yes"), "yes"));
    assert!(!is_token(&String::from("Yes"), "yes"));
    assert!(!is_token(&String::from("yes "), "yes"));
    assert!(!is_token(&String::from(""), "yes"));
    assert!(is_token(&String::from(""), ""));
}

#[test]
fn levels_that_parse() {
    assert_eq!(parse_level("0"), Some(0));
    assert_eq!(parse_level("7"), Some(7));
    assert_eq!(parse_level("660"), Some(660));
    assert_eq!(parse_level("195"), Some(195));
    assert_eq!(parse_level("65535"), Some(65535));
    assert_eq!(parse_level("+5"), Some(5));
    assert_eq!(parse_level("007"), Some(7));
    assert_eq!(parse_level("0000000000000000000065535"), Some(65535));
}

#[test]
fn levels_that_do_not_parse() {
    assert_eq!(parse_level(""), None);
    assert_eq!(parse_level("+"), None);
    assert_eq!(parse_level("-"), None);
    assert_eq!(parse_level("-1"), None);
    assert_eq!(parse_level("-0"), None);
    assert_eq!(parse_level("++1"), None);
    assert_eq!(parse_level("1+"), None);
    assert_eq!(parse_level("65536"), None);
    assert_eq!(parse_level("70000"), None);
    assert_eq!(parse_level("99999999999999999999999999"), None);
    assert_eq!(parse_level("12a"), None);
    assert_eq!(parse_level("a12"), None);
    assert_eq!(parse_level(" 12"), None);
    assert_eq!(parse_level("12 "), None);
    assert_eq!(parse_level("1_000"), None);
    assert_eq!(parse_level("1.5"), None);
    assert_eq!(parse_level("0x10"), None);
    assert_eq!(parse_level("abc"), None);
    assert_eq!(parse_level("\u{0663}"), None);
    assert_eq!(parse_level("1\u{00e9}"), None);
    assert_eq!(parse_level("\u{ff11}\u{ff12}"), None);
}

#[test]
fn levels_agree_with_the_standard_parser() {
    let samples = vec![
        "", "0", "1", "9", "10", "99", "100", "660", "6553", "65534", "65535", "65536", "65540",
        "655350", "100000", "4294967295", "4294967296", "+", "+0", "+65535", "+65536", "-", "-5",
        "+-5", "5+", "00", "010", " 1", "1 ", "1\n", "\t1", "1,000", "1e3", "0b1", "/", ":", "0/",
        "0:", "\u{0661}", "1\u{0661}", "\u{00b2}", "x",
    ];
    for s in samples {
        assert_eq!(parse_level(s), s.parse::<u16>().ok());
    }
}

#[test]
fn every_level_of_sixteen_bits_reads_back() {
    let mut n: u32 = 0;
    while n <= 65535 {
        let text = format!("{}", n);
        assert_eq!(parse_level(&text), Some(n as u16));
        n += 257;
    }
    assert_eq!(parse_level("65535"), Some(65535));
}
