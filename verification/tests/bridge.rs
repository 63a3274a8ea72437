use wand_control::conn::ble::{keep_advertising, on_uart_write, on_vendor_write, LovenseMessage, UartWrite};
use wand_control::event_queue::Event;

#[test]
fn vendor_write_publishes_a_decoded_message() {
    assert_eq!(on_vendor_write(b"Vibrate:12;"), Some(Event::Lovense(LovenseMessage::Vibrate(12))));
    assert_eq!(on_vendor_write(b"Battery;"), Some(Event::Lovense(LovenseMessage::Unrecognized)));
}

#[test]
fn vendor_write_drops_what_is_no_message() {
    assert_eq!(on_vendor_write(b"Vibrate:300;"), None);
    assert_eq!(on_vendor_write(b"hello"), None);
    assert_eq!(on_vendor_write(b""), None);
}

#[test]
fn vendor_write_drops_malformed_utf8() {
    assert_eq!(on_vendor_write(&[0xff, b';']), None);
    assert_eq!(on_vendor_write(&[b'V', b'i', 0xc3, b';']), None);
    assert_eq!(on_vendor_write(&[0xed, 0xa0, 0x80, b';']), None);
    assert_eq!(on_vendor_write(&[0xc0, 0x80, b';']), None);
}

#[test]
fn vendor_write_takes_well_formed_utf8() {
    let text = "héllo;".as_bytes();
    assert_eq!(on_vendor_write(text), Some(Event::Lovense(LovenseMessage::Unrecognized)));
}

#[test]
fn uart_write_prefers_vendor_messages() {
    assert_eq!(
        on_uart_write(b"Vibrate:3;"),
        UartWrite::Publish(Event::Lovense(LovenseMessage::Vibrate(3)))
    );
    assert_eq!(
        on_uart_write(b"wifi;"),
        UartWrite::Publish(Event::Lovense(LovenseMessage::Unrecognized))
    );
}

#[test]
fn uart_write_forwards_other_text_verbatim() {
    assert_eq!(
        on_uart_write(b"wifi --field ssid get"),
        UartWrite::Forward(String::from("wifi --field ssid get"))
    );
    assert_eq!(on_uart_write(b""), UartWrite::Forward(String::new()));
    assert_eq!(
        on_uart_write("sys temp ° \n".as_bytes()),
        UartWrite::Forward(String::from("sys temp ° \n"))
    );
}

#[test]
fn uart_write_forwards_a_malformed_vendor_command() {
    assert_eq!(on_uart_write(b"Vibrate:300;"), UartWrite::Forward(String::from("Vibrate:300;")));
}

#[test]
fn uart_write_ignores_malformed_utf8() {
    assert_eq!(on_uart_write(&[0x80]), UartWrite::Ignore);
    assert_eq!(on_uart_write(&[b'h', b'i', 0xfe]), UartWrite::Ignore);
    assert_eq!(on_uart_write(&[0xf8, 0x88, 0x80, 0x80, 0x80]), UartWrite::Ignore);
}

#[test]
fn advertising_goes_on_below_the_connection_limit() {
    assert!(keep_advertising(0, 3));
    assert!(keep_advertising(2, 3));
    assert!(!keep_advertising(3, 3));
    assert!(!keep_advertising(4, 3));
    assert!(!keep_advertising(0, 0));
}
