use wand_control::conn::ble::LovenseMessage;

fn vibrate(arg: &str) -> Option<LovenseMessage> {
    LovenseMessage::parse(&format!("Vibrate:{};", arg))
}

#[test]
fn vibrate_with_level() {
    assert_eq!(LovenseMessage::parse("Vibrate:200;"), Some(LovenseMessage::Vibrate(200)));
}

#[test]
fn vibrate_out_of_range_is_no_message() {
    assert_eq!(LovenseMessage::parse("Vibrate:300;"), None);
}

#[test]
fn unknown_command_is_unrecognized() {
    assert_eq!(LovenseMessage::parse("Foo;"), Some(LovenseMessage::Unrecognized));
}

#[test]
fn missing_terminator_is_no_message() {
    assert_eq!(LovenseMessage::parse("no-terminator"), None);
    assert_eq!(LovenseMessage::parse("Vibrate:5"), None);
    assert_eq!(LovenseMessage::parse(""), None);
}

#[test]
fn every_level_round_trips() {
    for level in 0..=255u8 {
        let text = format!("Vibrate:{};", level);
        assert_eq!(LovenseMessage::parse(&text), Some(LovenseMessage::Vibrate(level)));
    }
}

#[test]
fn text_after_the_terminator_is_ignored() {
    assert_eq!(LovenseMessage::parse("Vibrate:1;Vibrate:2;"), Some(LovenseMessage::Vibrate(1)));
    assert_eq!(LovenseMessage::parse("Vibrate:7;garbage:::"), Some(LovenseMessage::Vibrate(7)));
    assert_eq!(LovenseMessage::parse("Foo;Vibrate:2;"), Some(LovenseMessage::Unrecognized));
}

#[test]
fn vibrate_without_argument_is_no_message() {
    assert_eq!(LovenseMessage::parse("Vibrate;"), None);
    assert_eq!(LovenseMessage::parse("Vibrate:;"), None);
    assert_eq!(LovenseMessage::parse("Vibrate::5;"), None);
}

#[test]
fn only_the_first_argument_counts() {
    assert_eq!(LovenseMessage::parse("Vibrate:12:34;"), Some(LovenseMessage::Vibrate(12)));
    assert_eq!(LovenseMessage::parse("Vibrate:12:;"), Some(LovenseMessage::Vibrate(12)));
    assert_eq!(LovenseMessage::parse("Vibrate:12:x;"), Some(LovenseMessage::Vibrate(12)));
}

#[test]
fn level_bounds() {
    assert_eq!(vibrate("0"), Some(LovenseMessage::Vibrate(0)));
    assert_eq!(vibrate("255"), Some(LovenseMessage::Vibrate(255)));
    assert_eq!(vibrate("256"), None);
    assert_eq!(vibrate("1000"), None);
    assert_eq!(vibrate("99999999999999999999999999"), None);
}

#[test]
fn sign_and_leading_zeros() {
    assert_eq!(vibrate("+5"), Some(LovenseMessage::Vibrate(5)));
    assert_eq!(vibrate("007"), Some(LovenseMessage::Vibrate(7)));
    assert_eq!(vibrate("+000255"), Some(LovenseMessage::Vibrate(255)));
    assert_eq!(vibrate("+"), None);
    assert_eq!(vibrate("++5"), None);
    assert_eq!(vibrate("-1"), None);
    assert_eq!(vibrate("-0"), None);
}

#[test]
fn no_blanks_or_other_digits_in_a_level() {
    assert_eq!(vibrate(" 5"), None);
    assert_eq!(vibrate("5 "), None);
    assert_eq!(vibrate("1_0"), None);
    assert_eq!(vibrate("0x10"), None);
    assert_eq!(vibrate("\u{0663}"), None);
    assert_eq!(vibrate("5\u{0663}"), None);
}

#[test]
fn level_reads_as_the_standard_library_reads_it() {
    let samples = [
        "", "0", "9", "10", "99", "100", "199", "200", "249", "250", "255", "256", "260", "300",
        "999", "+0", "+255", "+256", "0255", "00000", "2 5", "a", "25a", "+", "-", "-5", "5+",
        "1.0", "٣", "１２",
    ];
    for sample in samples {
        let expected = sample.parse::<u8>().ok().map(LovenseMessage::Vibrate);
        assert_eq!(vibrate(sample), expected, "level {:?}", sample);
    }
}

#[test]
fn names_are_matched_exactly() {
    assert_eq!(LovenseMessage::parse("vibrate:1;"), Some(LovenseMessage::Unrecognized));
    assert_eq!(LovenseMessage::parse("Vibrate :1;"), Some(LovenseMessage::Unrecognized));
    assert_eq!(LovenseMessage::parse("Vibrater:1;"), Some(LovenseMessage::Unrecognized));
    assert_eq!(LovenseMessage::parse("Vibrat:1;"), Some(LovenseMessage::Unrecognized));
    assert_eq!(LovenseMessage::parse(" Vibrate:1;"), Some(LovenseMessage::Unrecognized));
    assert_eq!(LovenseMessage::parse("DeviceType;"), Some(LovenseMessage::Unrecognized));
}

#[test]
fn empty_command_is_unrecognized() {
    assert_eq!(LovenseMessage::parse(";"), Some(LovenseMessage::Unrecognized));
    assert_eq!(LovenseMessage::parse(":;"), Some(LovenseMessage::Unrecognized));
    assert_eq!(LovenseMessage::parse(":Vibrate:3;"), Some(LovenseMessage::Unrecognized));
}

#[test]
fn text_beyond_ascii_is_read_by_character() {
    assert_eq!(LovenseMessage::parse("héllo;"), Some(LovenseMessage::Unrecognized));
    assert_eq!(LovenseMessage::parse("héllo"), None);
    assert_eq!(LovenseMessage::parse("Vibrate:9;é"), Some(LovenseMessage::Vibrate(9)));
    assert_eq!(LovenseMessage::parse("é;Vibrate:9;"), Some(LovenseMessage::Unrecognized));
    assert_eq!(LovenseMessage::parse("Vibrate:é;"), None);
}

#[test]
fn parsing_is_repeatable_on_long_input() {
    let mut long = String::new();
    for _ in 0..20000 {
        long.push('x');
    }
    assert_eq!(LovenseMessage::parse(&long), None);
    long.push(';');
    assert_eq!(LovenseMessage::parse(&long), Some(LovenseMessage::Unrecognized));
    assert_eq!(LovenseMessage::parse(&long), Some(LovenseMessage::Unrecognized));
}
