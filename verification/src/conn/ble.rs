//! The vendor vibration-control protocol and the routing of BLE writes.
//!
//! A vendor message is a line of text: a command name, arguments separated
//! by `:`, and a closing `;`. Whatever follows the first `;` is ignored.

use vstd::prelude::*;
use vstd::string::*;
use vstd::utf8::*;
use crate::event_queue::Event;
use crate::text::{decimal_text, digit_char, to_chars};

verus! {

/// A decoded vendor message.
#[derive(Debug, Clone, Copy, PartialEq, Eq, Structural)]
pub enum LovenseMessage {
    /// Set the vibration level.
    Vibrate(u8),
    /// A well-formed message whose command this device does not act on.
    Unrecognized,
}

/// How many characters of `s` stand before the first `c`; all of them if
/// `c` does not occur.
pub open spec fn offset_of(s: Seq<char>, c: char) -> nat
    decreases s.len(),
{
    if s.len() == 0 || s[0] == c {
        0
    } else {
        1 + offset_of(s.drop_first(), c)
    }
}

/// Whether `c` is one of `0` to `9`.
pub open spec fn is_digit(c: char) -> bool {
    '0' <= c && c <= '9'
}

/// The number that the digits `s` write, most significant first.
pub open spec fn digits_value(s: Seq<char>) -> nat
    decreases s.len(),
{
    if s.len() == 0 {
        0
    } else {
        digits_value(s.drop_last()) * 10 + (s.last() as u32 - '0' as u32) as nat
    }
}

/// The text without one leading `+`, if it has one.
pub open spec fn unsigned_part(s: Seq<char>) -> Seq<char> {
    if s.len() > 0 && s[0] == '+' {
        s.drop_first()
    } else {
        s
    }
}

/// An unsigned 8-bit number in decimal: an optional `+`, then one or more
/// digits whose value is at most 255. Anything else is no number.
pub open spec fn parse_u8(s: Seq<char>) -> Option<u8> {
    let body = unsigned_part(s);
    if body.len() > 0 && (forall|i: int| 0 <= i < body.len() ==> is_digit(#[trigger] body[i]))
        && digits_value(body) <= 255 {
        Some(digits_value(body) as u8)
    } else {
        None
    }
}

/// The name of the one command that carries a payload.
pub open spec fn vibrate_name() -> Seq<char> {
    seq!['V', 'i', 'b', 'r', 'a', 't', 'e']
}

/// What a vendor message means.
///
/// Without a `;` the text is no vendor message. The part before the first
/// `;` is cut at each `:`; the first piece names the command. `Vibrate`
/// needs a first argument that is a number up to 255 and is otherwise no
/// message; any other name is a message without effect.
pub open spec fn parse_spec(text: Seq<char>) -> Option<LovenseMessage> {
    let end = offset_of(text, ';');
    if end >= text.len() {
        None
    } else {
        let body = text.take(end as int);
        let name_len = offset_of(body, ':');
        if body.take(name_len as int) == vibrate_name() {
            if name_len >= body.len() {
                None
            } else {
                let rest = body.skip(name_len as int + 1);
                match parse_u8(rest.take(offset_of(rest, ':') as int)) {
                    Some(level) => Some(LovenseMessage::Vibrate(level)),
                    None => None,
                }
            }
        } else {
            Some(LovenseMessage::Unrecognized)
        }
    }
}

/// `offset_of` is the least index that holds `c`, or the length.
pub proof fn lemma_offset_of(s: Seq<char>, c: char, k: int)
    requires
        0 <= k <= s.len(),
        forall|j: int| 0 <= j < k ==> s[j] != c,
        k == s.len() || s[k] == c,
    ensures
        offset_of(s, c) == k,
    decreases k,
{
    if k > 0 {
        let t = s.drop_first();
        assert forall|j: int| 0 <= j < k - 1 implies t[j] != c by {
            assert(t[j] == s[j + 1]);
        }
        lemma_offset_of(t, c, k - 1);
    }
}

/// The place of the first `c` among `chars[from..to]`, or `to`.
fn find_char(chars: &Vec<char>, from: usize, to: usize, c: char) -> (at: usize)
    requires
        from <= to <= chars.len(),
    ensures
        from <= at <= to,
        at - from == offset_of(chars@.subrange(from as int, to as int), c),
{
    let mut at: usize = from;
    while at < to && chars[at] != c
        invariant
            from <= at <= to <= chars.len(),
            forall|j: int| from <= j < at ==> chars@[j] != c,
        decreases to - at,
    {
        at += 1;
    }
    proof {
        lemma_offset_of(chars@.subrange(from as int, to as int), c, at - from);
    }
    at
}

/// A prefix of digits is worth no more than the whole.
proof fn lemma_digits_value_grows(s: Seq<char>, k: int)
    requires
        0 <= k <= s.len(),
    ensures
        digits_value(s.take(k)) <= digits_value(s),
    decreases s.len() - k,
{
    if k < s.len() {
        lemma_digits_value_grows(s.drop_last(), k);
        assert(s.drop_last().take(k) =~= s.take(k));
    } else {
        assert(s.take(k) =~= s);
    }
}

/// Reads `chars[from..to]` as an unsigned 8-bit number.
fn read_u8(chars: &Vec<char>, from: usize, to: usize) -> (r: Option<u8>)
    requires
        from <= to <= chars.len(),
    ensures
        r == parse_u8(chars@.subrange(from as int, to as int)),
{
    let ghost s = chars@.subrange(from as int, to as int);
    let first: usize = if from < to && chars[from] == '+' {
        from + 1
    } else {
        from
    };
    let ghost body = unsigned_part(s);
    assert(body =~= chars@.subrange(first as int, to as int));
    if first == to {
        return None;
    }
    let mut value: u32 = 0;
    let mut at: usize = first;
    while at < to
        invariant
            from <= first <= at <= to <= chars.len(),
            body == unsigned_part(chars@.subrange(from as int, to as int)),
            body == chars@.subrange(first as int, to as int),
            forall|i: int| 0 <= i < at - first ==> is_digit(#[trigger] body[i]),
            value == digits_value(body.take(at - first)),
            value <= 255,
        decreases to - at,
    {
        let c = chars[at];
        if !(c >= '0' && c <= '9') {
            assert(!is_digit(body[at - first]));
            return None;
        }
        let ghost shorter = body.take(at - first);
        let ghost longer = body.take(at - first + 1);
        assert(longer.drop_last() =~= shorter);
        assert(longer.last() == c);
        value = value * 10 + (c as u32 - '0' as u32);
        if value > 255 {
            proof {
                lemma_digits_value_grows(body, at - first + 1);
            }
            return None;
        }
        at += 1;
    }
    assert(body.take(at - first) =~= body);
    Some(value as u8)
}

/// Whether `chars[..len]` spells the name of the vibrate command.
fn names_vibrate(chars: &Vec<char>, len: usize) -> (r: bool)
    requires
        len <= chars.len(),
    ensures
        r == (chars@.take(len as int) == vibrate_name()),
{
    let r = len == 7 && chars[0] == 'V' && chars[1] == 'i' && chars[2] == 'b' && chars[3] == 'r'
        && chars[4] == 'a' && chars[5] == 't' && chars[6] == 'e';
    proof {
        let name = chars@.take(len as int);
        if r {
            assert(name =~= vibrate_name());
        } else if name == vibrate_name() {
            assert(name.len() == 7);
            assert(name[0] == 'V' && name[1] == 'i' && name[2] == 'b' && name[3] == 'r');
            assert(name[4] == 'a' && name[5] == 't' && name[6] == 'e');
        }
    }
    r
}

impl LovenseMessage {
    /// Decodes one vendor message.
    ///
    /// Returns `None` where the text is no vendor message, so that the
    /// caller may read it as something else; `Unrecognized` where it is one
    /// that this device does not act on.
    pub fn parse(args: &str) -> (r: Option<LovenseMessage>)
        ensures
            r == parse_spec(args@),
    {
        let chars = to_chars(args);
        let end = find_char(&chars, 0, chars.len(), ';');
        assert(chars@.subrange(0, chars.len() as int) =~= chars@);
        if end >= chars.len() {
            return None;
        }
        let ghost body = chars@.take(end as int);
        let name_len = find_char(&chars, 0, end, ':');
        assert(chars@.subrange(0, end as int) =~= body);
        assert(body.take(name_len as int) =~= chars@.take(name_len as int));
        if !names_vibrate(&chars, name_len) {
            return Some(LovenseMessage::Unrecognized);
        }
        if name_len >= end {
            return None;
        }
        let ghost rest = body.skip(name_len + 1);
        assert(rest =~= chars@.subrange(name_len + 1, end as int));
        let arg_end = find_char(&chars, name_len + 1, end, ':');
        assert(rest.take(arg_end - (name_len + 1)) =~= chars@.subrange(
            name_len + 1,
            arg_end as int,
        ));
        match read_u8(&chars, name_len + 1, arg_end) {
            Some(level) => Some(LovenseMessage::Vibrate(level)),
            None => None,
        }
    }
}

/// `offset_of` stays within the text, passes over no `c`, and stops at one
/// unless it reaches the end.
pub proof fn lemma_offset_of_stops(s: Seq<char>, c: char)
    ensures
        offset_of(s, c) <= s.len(),
        forall|j: int| 0 <= j < offset_of(s, c) ==> s[j] != c,
        offset_of(s, c) < s.len() ==> s[offset_of(s, c) as int] == c,
    decreases s.len(),
{
    if s.len() > 0 && s[0] != c {
        let t = s.drop_first();
        lemma_offset_of_stops(t, c);
        assert forall|j: int| 0 <= j < offset_of(s, c) implies s[j] != c by {
            if j > 0 {
                assert(s[j] == t[j - 1]);
            }
        }
    }
}

/// Whatever follows the first `;` is ignored: a text that holds a `;` means
/// the same with anything put behind it.
pub proof fn text_behind_the_terminator_is_ignored(text: Seq<char>, tail: Seq<char>)
    requires
        offset_of(text, ';') < text.len(),
    ensures
        parse_spec(text + tail) == parse_spec(text),
{
    let end = offset_of(text, ';');
    lemma_offset_of_stops(text, ';');
    let longer = text + tail;
    assert forall|j: int| 0 <= j < end implies longer[j] != ';' by {
        assert(longer[j] == text[j]);
    }
    assert(longer[end as int] == text[end as int]);
    lemma_offset_of(longer, ';', end as int);
    assert(longer.take(end as int) =~= text.take(end as int));
}

/// The text that asks for vibration level `level`: `Vibrate:`, the level in
/// decimal, and the closing `;`.
pub open spec fn vibrate_text(level: u8) -> Seq<char> {
    vibrate_name().push(':') + decimal_text(level as nat) + seq![';']
}

/// The decimal writing of a number is made of digits and is worth the number.
pub proof fn lemma_decimal_text(n: nat)
    ensures
        decimal_text(n).len() >= 1,
        forall|i: int| 0 <= i < decimal_text(n).len() ==> is_digit(#[trigger] decimal_text(n)[i]),
        digits_value(decimal_text(n)) == n,
    decreases n,
{
    if n < 10 {
        let one = seq![digit_char(n)];
        assert(one.drop_last() =~= Seq::<char>::empty());
        assert(digits_value(one.drop_last()) == 0);
        assert(one.last() == digit_char(n));
    } else {
        lemma_decimal_text(n / 10);
        let shorter = decimal_text(n / 10);
        let whole = shorter.push(digit_char(n % 10));
        assert(whole.drop_last() =~= shorter);
        assert(whole.last() == digit_char(n % 10));
    }
}

/// Round trip of the vibrate command: for every level from 0 to 255, the text
/// `Vibrate:<level>;` with the level written in decimal decodes to
/// `Vibrate(level)`.
pub proof fn vibrate_round_trip(level: u8)
    ensures
        parse_spec(vibrate_text(level)) == Some(LovenseMessage::Vibrate(level)),
{
    let digits = decimal_text(level as nat);
    lemma_decimal_text(level as nat);
    let text = vibrate_text(level);
    let end = 8 + digits.len();
    assert forall|j: int| 0 <= j < end implies text[j] != ';' by {
        if j >= 8 {
            assert(text[j] == digits[j - 8]);
            assert(is_digit(digits[j - 8]));
        }
    }
    lemma_offset_of(text, ';', end as int);
    let body = text.take(end as int);
    assert(body =~= vibrate_name().push(':') + digits);
    lemma_offset_of(body, ':', 7);
    assert(body.take(7) =~= vibrate_name());
    let rest = body.skip(8);
    assert(rest =~= digits);
    assert forall|j: int| 0 <= j < digits.len() implies digits[j] != ':' by {
        assert(is_digit(digits[j]));
    }
    lemma_offset_of(rest, ':', digits.len() as int);
    assert(rest.take(digits.len() as int) =~= digits);
    assert(is_digit(digits[0]));
    assert(unsigned_part(digits) == digits);
}

/// `std::str::from_utf8`: the bytes as text, if and only if they are
/// well-formed UTF-8; the text then encodes to exactly these bytes.
#[verifier::external_body]
fn utf8_text(data: &[u8]) -> (text: Option<&str>)
    ensures
        text is Some <==> valid_utf8(data@),
        text is Some ==> text->0.spec_bytes() == data@,
{
    std::str::from_utf8(data).ok()
}

/// What a write to the vendor service puts on the event bus: the decoded
/// message if the payload is UTF-8 text that holds one, else nothing.
pub open spec fn vendor_write_event(data: Seq<u8>) -> Option<Event> {
    if valid_utf8(data) {
        match parse_spec(decode_utf8(data)) {
            Some(message) => Some(Event::Lovense(message)),
            None => None,
        }
    } else {
        None
    }
}

/// Handles a write to the vendor service: returns the event to publish, or
/// `None` where the payload is to be dropped without a trace.
pub fn on_vendor_write(data: &[u8]) -> (event: Option<Event>)
    ensures
        event == vendor_write_event(data@),
{
    match utf8_text(data) {
        Some(text) => {
            proof {
                encode_utf8_decode_utf8(text@);
            }
            match LovenseMessage::parse(text) {
                Some(message) => Some(Event::Lovense(message)),
                None => None,
            }
        },
        None => None,
    }
}

/// What to do with a write to the serial-emulation service.
#[derive(Debug, Clone, PartialEq, Eq)]
pub enum UartWrite {
    /// The payload is a vendor message: publish this event.
    Publish(Event),
    /// The payload is a line for the command interpreter.
    Forward(String),
    /// The payload is no text: drop it.
    Ignore,
}

/// Handles a write to the serial-emulation service. A vendor message takes
/// precedence here too; any other UTF-8 text goes to the command
/// interpreter as it is; bytes that are no UTF-8 text are dropped.
pub fn on_uart_write(data: &[u8]) -> (action: UartWrite)
    ensures
        match action {
            UartWrite::Publish(event) => vendor_write_event(data@) == Some(event),
            UartWrite::Forward(line) => valid_utf8(data@) && parse_spec(decode_utf8(data@))
                is None && line@ == decode_utf8(data@),
            UartWrite::Ignore => !valid_utf8(data@),
        },
{
    match utf8_text(data) {
        Some(text) => {
            proof {
                encode_utf8_decode_utf8(text@);
            }
            match LovenseMessage::parse(text) {
                Some(message) => UartWrite::Publish(Event::Lovense(message)),
                None => UartWrite::Forward(text.to_owned()),
            }
        },
        None => UartWrite::Ignore,
    }
}

/// Whether to go on advertising after a client has connected: only while
/// fewer clients are connected than the stack serves at once.
pub fn keep_advertising(connected: usize, max_connections: usize) -> (r: bool)
    ensures
        r == (connected < max_connections),
{
    connected < max_connections
}

} // verus!
