use wand_control::conn::remote_log::{get_color, get_marker, render_record, strip_origin, LogLevel};

#[test]
fn markers() {
    assert_eq!(get_marker(LogLevel::Error), "E");
    assert_eq!(get_marker(LogLevel::Warn), "W");
    assert_eq!(get_marker(LogLevel::Info), "I");
    assert_eq!(get_marker(LogLevel::Debug), "D");
    assert_eq!(get_marker(LogLevel::Trace), "V");
}

#[test]
fn colours() {
    assert_eq!(get_color(LogLevel::Error, true), Some(31));
    assert_eq!(get_color(LogLevel::Warn, true), Some(33));
    assert_eq!(get_color(LogLevel::Info, true), Some(32));
    assert_eq!(get_color(LogLevel::Debug, true), None);
    assert_eq!(get_color(LogLevel::Trace, true), None);
    for level in [LogLevel::Error, LogLevel::Warn, LogLevel::Info, LogLevel::Debug, LogLevel::Trace] {
        assert_eq!(get_color(level, false), None);
    }
}

#[test]
fn plain_record() {
    assert_eq!(
        render_record(LogLevel::Info, false, "1234", "wand::ble", "hello"),
        "I (1234) wand::ble: hello\nR"
    );
    assert_eq!(render_record(LogLevel::Debug, true, "", "t", ""), "D () t: \nR");
}

#[test]
fn coloured_record() {
    assert_eq!(
        render_record(LogLevel::Error, true, "77", "ota", "failed: x"),
        "\x1b[0;31mE (77) ota: failed: x\x1b[0m\nR"
    );
    assert_eq!(
        render_record(LogLevel::Warn, true, "0", "a", "b"),
        "\x1b[0;33mW (0) a: b\x1b[0m\nR"
    );
}

#[test]
fn origin_is_the_last_character() {
    assert_eq!(strip_origin("I (1) t: m\nR"), ("I (1) t: m\n", true));
    assert_eq!(strip_origin("boot: ok\nC"), ("boot: ok\n", false));
    assert_eq!(strip_origin("R"), ("", true));
    assert_eq!(strip_origin("x"), ("", false));
    assert_eq!(strip_origin(""), ("", false));
    assert_eq!(strip_origin("RR"), ("R", true));
    assert_eq!(strip_origin("temp 20°"), ("temp 20", false));
    assert_eq!(strip_origin("°R"), ("°", true));
}

#[test]
fn a_rendered_record_is_told_apart_again() {
    let line = render_record(LogLevel::Info, true, "5", "main", "ready");
    let (body, own) = strip_origin(&line);
    assert!(own);
    assert_eq!(body, "\x1b[0;32mI (5) main: ready\x1b[0m\n");
}
