//! The messages that the bridge sends, and the decoder that turns a received
//! text into one of them.
//!
//! The wire format is stated over the bytes of the text. A text is a message
//! when its bytes are one of the three prompt markers, or an event line: the
//! event prefix followed by three decimal fields separated by commas.

use vstd::prelude::*;
use vstd::string::StringExecFns;
use vstd::utf8::{encode_utf8, is_ascii_chars_encode_utf8};

use crate::caseta::error::{DecodeError, DecodeErrorView};
use crate::caseta::remote::{ButtonAction, ButtonId, RemoteId};

verus! {

/// Everything the bridge can send.
#[derive(Debug, Clone, Copy, PartialEq, Eq, Structural)]
pub enum Message {
    /// The bridge is ready for a username.
    LoginPrompt,
    /// The bridge took the username and wants a password.
    PasswordPrompt,
    /// Authentication succeeded; events follow.
    LoggedIn,
    /// A remote reported that something was done to one of its buttons.
    ButtonEvent { remote_id: RemoteId, button_id: ButtonId, action: ButtonAction },
}

/// The text with which the bridge asks for a username.
pub const LOGIN_PROMPT: &'static str = "login: ";

/// The text with which the bridge asks for a password.
pub const PASSWORD_PROMPT: &'static str = "password: ";

/// The text with which the bridge confirms a login.
pub const LOGGED_IN: &'static str = "GNET> ";

/// The text with which every event line of a device begins.
pub const EVENT_PREFIX: &'static str = "~DEVICE,";

/// The byte that separates the fields of an event line: a comma.
pub const FIELD_SEPARATOR: u8 = 44;

/// The byte of the digit zero.
pub const DIGIT_ZERO: u8 = 48;

/// The byte of the digit nine.
pub const DIGIT_NINE: u8 = 57;

/// Whether a byte is a decimal digit.
pub open spec fn is_digit(byte: u8) -> bool {
    DIGIT_ZERO <= byte <= DIGIT_NINE
}

/// The number that a run of decimal digits writes, most significant digit
/// first.
pub open spec fn decimal_value(digits: Seq<u8>) -> nat
    decreases digits.len(),
{
    if digits.len() == 0 {
        0
    } else {
        10 * decimal_value(digits.drop_last()) + (digits.last() - DIGIT_ZERO) as nat
    }
}

/// The value of one field of an event line: the field is one or more decimal
/// digits and nothing else, and the number they write fits in eight bits.
pub open spec fn field_value(field: Seq<u8>) -> Option<u8> {
    if field.len() > 0 && (forall|i: int| 0 <= i < field.len() ==> is_digit(#[trigger] field[i]))
        && decimal_value(field) <= u8::MAX {
        Some(decimal_value(field) as u8)
    } else {
        None
    }
}

/// Where the field that starts at `from` ends: the position of the first
/// separator at or after `from`, or the length of the line if there is none.
pub open spec fn field_end(line: Seq<u8>, from: int) -> int
    decreases line.len() - from,
{
    if from < 0 || from >= line.len() {
        line.len() as int
    } else if line[from] == FIELD_SEPARATOR {
        from
    } else {
        field_end(line, from + 1)
    }
}

/// The three numbers of an event line (remote, component code, action code),
/// if `line` is one: the event prefix, then exactly three fields with a
/// separator between each two.
pub open spec fn event_codes(line: Seq<u8>) -> Option<(u8, u8, u8)> {
    let prefix = encode_utf8(EVENT_PREFIX@);
    let start = prefix.len() as int;
    let first = field_end(line, start);
    let second = field_end(line, first + 1);
    if prefix.is_prefix_of(line) && first < line.len() && second < line.len() {
        match (
            field_value(line.subrange(start, first)),
            field_value(line.subrange(first + 1, second)),
            field_value(line.subrange(second + 1, line.len() as int)),
        ) {
            (Some(remote), Some(component), Some(action)) => Some((remote, component, action)),
            _ => None,
        }
    } else {
        None
    }
}

/// What the three numbers of an event line mean. The component and action
/// codes go through the closed mappings of the buttons and actions, the
/// component code first; a code outside them is an error that names it.
pub open spec fn event_of_codes(remote: u8, component: u8, action: u8) -> Result<
    Message,
    DecodeErrorView,
> {
    match ButtonId::spec_from_code(component) {
        None => Err(DecodeErrorView::InvalidButtonId(component)),
        Some(button_id) => match ButtonAction::spec_from_code(action) {
            None => Err(DecodeErrorView::InvalidButtonAction(action)),
            Some(action) => Ok(Message::ButtonEvent { remote_id: remote, button_id, action }),
        },
    }
}

/// What a received text decodes to. The three markers are matched whole and
/// byte for byte; an event line is decoded through its codes; any other text
/// is not understood, and the error carries it.
pub open spec fn decode_text(text: Seq<char>) -> Result<Message, DecodeErrorView> {
    let bytes = encode_utf8(text);
    if bytes == encode_utf8(LOGIN_PROMPT@) {
        Ok(Message::LoginPrompt)
    } else if bytes == encode_utf8(PASSWORD_PROMPT@) {
        Ok(Message::PasswordPrompt)
    } else if bytes == encode_utf8(LOGGED_IN@) {
        Ok(Message::LoggedIn)
    } else {
        match event_codes(bytes) {
            Some((remote, component, action)) => event_of_codes(remote, component, action),
            None => Err(DecodeErrorView::NotUnderstood { text }),
        }
    }
}

/// The mathematical value of what the decoder returns.
pub open spec fn decoded_view(decoded: Result<Message, DecodeError>) -> Result<
    Message,
    DecodeErrorView,
> {
    match decoded {
        Ok(message) => Ok(message),
        Err(error) => Err(error@),
    }
}

/// The decimal digits of a value as bytes, most significant first, without
/// leading zeros.
pub open spec fn decimal_digits(value: u8) -> Seq<u8> {
    if value >= 100 {
        seq![
            (DIGIT_ZERO + value / 100) as u8,
            (DIGIT_ZERO + value / 10 % 10) as u8,
            (DIGIT_ZERO + value % 10) as u8,
        ]
    } else if value >= 10 {
        seq![(DIGIT_ZERO + value / 10) as u8, (DIGIT_ZERO + value % 10) as u8]
    } else {
        seq![(DIGIT_ZERO + value) as u8]
    }
}

/// The text that ASCII bytes spell: each byte as the character of its code.
pub open spec fn ascii_text(bytes: Seq<u8>) -> Seq<char> {
    Seq::new(bytes.len(), |i: int| bytes[i] as char)
}

/// A value written in decimal, without leading zeros.
pub open spec fn decimal_text(value: u8) -> Seq<char> {
    ascii_text(decimal_digits(value))
}

/// The event line that carries the three numbers: the event prefix and the
/// numbers in decimal, with a comma between each two.
pub open spec fn event_text(remote: u8, component: u8, action: u8) -> Seq<char> {
    EVENT_PREFIX@ + decimal_text(remote) + seq![','] + decimal_text(component) + seq![',']
        + decimal_text(action)
}

/// The text of a message on the wire.
pub open spec fn wire_text(message: Message) -> Seq<char> {
    match message {
        Message::LoginPrompt => LOGIN_PROMPT@,
        Message::PasswordPrompt => PASSWORD_PROMPT@,
        Message::LoggedIn => LOGGED_IN@,
        Message::ButtonEvent { remote_id, button_id, action } => event_text(
            remote_id,
            button_id.spec_code(),
            action.spec_code(),
        ),
    }
}

/// The three markers decode to their messages: none of them is taken for
/// another.
pub proof fn lemma_markers_decode()
    ensures
        decode_text(LOGIN_PROMPT@) == Ok::<Message, DecodeErrorView>(Message::LoginPrompt),
        decode_text(PASSWORD_PROMPT@) == Ok::<Message, DecodeErrorView>(Message::PasswordPrompt),
        decode_text(LOGGED_IN@) == Ok::<Message, DecodeErrorView>(Message::LoggedIn),
{
    reveal_strlit("login: ");
    reveal_strlit("password: ");
    reveal_strlit("GNET> ");
    is_ascii_chars_encode_utf8(LOGIN_PROMPT@);
    is_ascii_chars_encode_utf8(PASSWORD_PROMPT@);
    is_ascii_chars_encode_utf8(LOGGED_IN@);
}

/// A text that is not understood comes back whole: the error of a text of
/// no known shape carries that text and no other, and a text is not
/// understood exactly when it is none of the three markers and no event
/// line.
pub proof fn lemma_not_understood_carries_text(text: Seq<char>)
    ensures
        decode_text(text) matches Err(DecodeErrorView::NotUnderstood { text: carried }) ==> carried
            == text,
        decode_text(text) matches Err(DecodeErrorView::NotUnderstood { .. }) <==> {
            &&& encode_utf8(text) != encode_utf8(LOGIN_PROMPT@)
            &&& encode_utf8(text) != encode_utf8(PASSWORD_PROMPT@)
            &&& encode_utf8(text) != encode_utf8(LOGGED_IN@)
            &&& event_codes(encode_utf8(text)) is None
        },
{
}

/// The field that starts at `from` ends at `end` when no byte from `from` up
/// to `end` is a separator and `end` is a separator or the end of the line.
proof fn lemma_field_end(line: Seq<u8>, from: int, end: int)
    requires
        0 <= from <= end <= line.len(),
        forall|i: int| from <= i < end ==> line[i] != FIELD_SEPARATOR,
        end < line.len() ==> line[end] == FIELD_SEPARATOR,
    ensures
        field_end(line, from) == end,
    decreases end - from,
{
    if from < end {
        lemma_field_end(line, from + 1, end);
    }
}

/// The decimal digits of a value are a field, and the field has that value.
proof fn lemma_decimal_digits_value(value: u8)
    ensures
        field_value(decimal_digits(value)) == Some(value),
        1 <= decimal_digits(value).len() <= 3,
        forall|i: int| 0 <= i < decimal_digits(value).len() ==> is_digit(
            #[trigger] decimal_digits(value)[i],
        ),
{
    let digits = decimal_digits(value);
    reveal_with_fuel(decimal_value, 4);
    if value >= 100 {
        assert(digits.drop_last() =~= seq![digits[0], digits[1]]);
        assert(digits.drop_last().drop_last() =~= seq![digits[0]]);
        assert(digits.drop_last().drop_last().drop_last() =~= Seq::<u8>::empty());
    } else if value >= 10 {
        assert(digits.drop_last() =~= seq![digits[0]]);
        assert(digits.drop_last().drop_last() =~= Seq::<u8>::empty());
    } else {
        assert(digits.drop_last() =~= Seq::<u8>::empty());
    }
}

/// An event line decodes to what its three numbers mean, whatever the
/// numbers are.
pub proof fn lemma_event_text_decodes(remote: u8, component: u8, action: u8)
    ensures
        decode_text(event_text(remote, component, action)) == event_of_codes(
            remote,
            component,
            action,
        ),
{
    reveal_strlit("login: ");
    reveal_strlit("password: ");
    reveal_strlit("GNET> ");
    reveal_strlit("~DEVICE,");
    let text = event_text(remote, component, action);
    let bytes = encode_utf8(text);
    let prefix = encode_utf8(EVENT_PREFIX@);
    let first_field = decimal_digits(remote);
    let second_field = decimal_digits(component);
    let third_field = decimal_digits(action);
    lemma_decimal_digits_value(remote);
    lemma_decimal_digits_value(component);
    lemma_decimal_digits_value(action);
    let start = 8int;
    let first = start + first_field.len();
    let second = first + 1 + second_field.len();
    // Every character of the line is ASCII: it comes from the prefix, from
    // the digits of a field, or is a separator.
    assert(forall|i: int|
        0 <= i < text.len() ==> {
            &&& '\0' <= #[trigger] text[i] <= '\u{7f}'
            &&& i < start ==> text[i] == EVENT_PREFIX@[i]
            &&& start <= i < first ==> text[i] as u8 == first_field[i - start]
            &&& i == first ==> text[i] == ','
            &&& first < i < second ==> text[i] as u8 == second_field[i - first - 1]
            &&& i == second ==> text[i] == ','
            &&& second < i ==> text[i] as u8 == third_field[i - second - 1]
        });
    // So the bytes of the line are the codes of its characters.
    is_ascii_chars_encode_utf8(text);
    is_ascii_chars_encode_utf8(EVENT_PREFIX@);
    is_ascii_chars_encode_utf8(LOGIN_PROMPT@);
    is_ascii_chars_encode_utf8(PASSWORD_PROMPT@);
    is_ascii_chars_encode_utf8(LOGGED_IN@);
    // No marker begins as the line does.
    assert(bytes[0] != encode_utf8(LOGIN_PROMPT@)[0]);
    assert(bytes[0] != encode_utf8(PASSWORD_PROMPT@)[0]);
    assert(bytes[0] != encode_utf8(LOGGED_IN@)[0]);
    // The line begins with the prefix, and its fields end where the
    // separators stand.
    assert(prefix =~= bytes.subrange(0, start));
    lemma_field_end(bytes, start, first);
    lemma_field_end(bytes, first + 1, second);
    assert(bytes.subrange(start, first) =~= first_field);
    assert(bytes.subrange(first + 1, second) =~= second_field);
    assert(bytes.subrange(second + 1, bytes.len() as int) =~= third_field);
}

/// Decoding undoes writing: the wire text of every message decodes to that
/// message.
pub proof fn lemma_wire_text_round_trip(message: Message)
    ensures
        decode_text(wire_text(message)) == Ok::<Message, DecodeErrorView>(message),
{
    lemma_markers_decode();
    match message {
        Message::ButtonEvent { remote_id, button_id, action } => {
            lemma_event_text_decodes(remote_id, button_id.spec_code(), action.spec_code());
        },
        _ => {},
    }
}

/// A longer run of digits writes a number at least as large as any of its
/// beginnings.
proof fn lemma_decimal_value_grows(digits: Seq<u8>, shorter: int)
    requires
        0 <= shorter <= digits.len(),
        forall|i: int| 0 <= i < digits.len() ==> is_digit(#[trigger] digits[i]),
    ensures
        decimal_value(digits.take(shorter)) <= decimal_value(digits),
    decreases digits.len() - shorter,
{
    if shorter == digits.len() {
        assert(digits.take(shorter) =~= digits);
    } else {
        let longer = digits.take(shorter + 1);
        assert(longer.drop_last() =~= digits.take(shorter));
        assert(is_digit(digits[shorter]));
        assert(longer.last() == digits[shorter]);
        lemma_decimal_value_grows(digits, shorter + 1);
    }
}

/// Whether two byte slices hold the same bytes.
fn same_bytes(left: &[u8], right: &[u8]) -> (same: bool)
    ensures
        same == (left@ == right@),
{
    if left.len() != right.len() {
        return false;
    }
    let mut i: usize = 0;
    while i < left.len()
        invariant
            left@.len() == right@.len(),
            0 <= i <= left@.len(),
            forall|k: int| 0 <= k < i ==> left@[k] == right@[k],
        decreases left@.len() - i,
    {
        if left[i] != right[i] {
            return false;
        }
        i += 1;
    }
    assert(left@ =~= right@);
    true
}

/// Whether `line` begins with `prefix`.
fn starts_with(line: &[u8], prefix: &[u8]) -> (begins: bool)
    ensures
        begins == prefix@.is_prefix_of(line@),
{
    if line.len() < prefix.len() {
        return false;
    }
    let mut i: usize = 0;
    while i < prefix.len()
        invariant
            prefix@.len() <= line@.len(),
            0 <= i <= prefix@.len(),
            forall|k: int| 0 <= k < i ==> line@[k] == prefix@[k],
        decreases prefix@.len() - i,
    {
        if line[i] != prefix[i] {
            return false;
        }
        i += 1;
    }
    assert(prefix@ =~= line@.subrange(0, prefix@.len() as int));
    true
}

/// Finds where the field that starts at `from` ends.
fn find_field_end(line: &[u8], from: usize) -> (end: usize)
    requires
        from <= line@.len(),
    ensures
        end == field_end(line@, from as int),
        from <= end <= line@.len(),
{
    let mut end: usize = from;
    while end < line.len() && line[end] != FIELD_SEPARATOR
        invariant
            from <= end <= line@.len(),
            field_end(line@, from as int) == field_end(line@, end as int),
        decreases line@.len() - end,
    {
        end += 1;
    }
    end
}

/// Reads the field that occupies `line[from..to]`.
fn parse_field(line: &[u8], from: usize, to: usize) -> (value: Option<u8>)
    requires
        from <= to <= line@.len(),
    ensures
        value == field_value(line@.subrange(from as int, to as int)),
{
    let ghost field = line@.subrange(from as int, to as int);
    if from == to {
        return None;
    }
    let mut value: u16 = 0;
    let mut i: usize = from;
    while i < to
        invariant
            from <= i <= to <= line@.len(),
            field == line@.subrange(from as int, to as int),
            forall|k: int| 0 <= k < i - from ==> is_digit(#[trigger] field[k]),
            value == decimal_value(field.take(i - from)),
            value <= u8::MAX,
        decreases to - i,
    {
        let byte = line[i];
        if byte < DIGIT_ZERO || byte > DIGIT_NINE {
            assert(!is_digit(field[i - from]));
            return None;
        }
        let ghost longer = field.take(i - from + 1);
        assert(longer.drop_last() =~= field.take(i - from));
        assert(longer.last() == byte);
        value = 10 * value + (byte - DIGIT_ZERO) as u16;
        if value > 255 {
            proof {
                if forall|k: int| 0 <= k < field.len() ==> is_digit(#[trigger] field[k]) {
                    lemma_decimal_value_grows(field, i - from + 1);
                }
            }
            return None;
        }
        i += 1;
    }
    assert(field.take(i - from) =~= field);
    Some(value as u8)
}

/// Reads the three numbers of an event line.
fn parse_event_codes(line: &[u8]) -> (codes: Option<(u8, u8, u8)>)
    ensures
        codes == event_codes(line@),
{
    let prefix = EVENT_PREFIX.as_bytes();
    if !starts_with(line, prefix) {
        return None;
    }
    let start = prefix.len();
    let first = find_field_end(line, start);
    if first >= line.len() {
        return None;
    }
    let second = find_field_end(line, first + 1);
    if second >= line.len() {
        return None;
    }
    let remote = parse_field(line, start, first);
    let component = parse_field(line, first + 1, second);
    let action = parse_field(line, second + 1, line.len());
    match (remote, component, action) {
        (Some(remote), Some(component), Some(action)) => Some((remote, component, action)),
        _ => None,
    }
}

/// The text of one decimal digit.
fn digit_text(digit: u8) -> (text: &'static str)
    requires
        digit < 10,
    ensures
        text@ == seq![(DIGIT_ZERO + digit) as u8 as char],
{
    proof {
        reveal_strlit("0");
        reveal_strlit("1");
        reveal_strlit("2");
        reveal_strlit("3");
        reveal_strlit("4");
        reveal_strlit("5");
        reveal_strlit("6");
        reveal_strlit("7");
        reveal_strlit("8");
        reveal_strlit("9");
    }
    let text = match digit {
        0 => "0",
        1 => "1",
        2 => "2",
        3 => "3",
        4 => "4",
        5 => "5",
        6 => "6",
        7 => "7",
        8 => "8",
        _ => "9",
    };
    assert(text@ =~= seq![(DIGIT_ZERO + digit) as u8 as char]);
    text
}

/// Appends a value in decimal to a text.
fn append_decimal(text: &mut String, value: u8)
    ensures
        final(text)@ == old(text)@ + decimal_text(value),
{
    if value >= 100 {
        text.append(digit_text(value / 100));
        text.append(digit_text(value / 10 % 10));
    } else if value >= 10 {
        text.append(digit_text(value / 10));
    }
    text.append(digit_text(value % 10));
    assert(text@ =~= old(text)@ + decimal_text(value));
}

impl Message {
    /// The text of this message on the wire: for a prompt or the
    /// confirmation its marker, for a button event its event line.
    /// [`Message::from_str`] decodes it to this message again.
    pub fn wire_text(&self) -> (text: String)
        ensures
            text@ == wire_text(*self),
            decode_text(text@) == Ok::<Message, DecodeErrorView>(*self),
    {
        proof {
            lemma_wire_text_round_trip(*self);
        }
        match *self {
            Message::LoginPrompt => LOGIN_PROMPT.to_owned(),
            Message::PasswordPrompt => PASSWORD_PROMPT.to_owned(),
            Message::LoggedIn => LOGGED_IN.to_owned(),
            Message::ButtonEvent { remote_id, button_id, action } => {
                proof {
                    reveal_strlit(",");
                }
                let mut text = EVENT_PREFIX.to_owned();
                append_decimal(&mut text, remote_id);
                text.append(",");
                append_decimal(&mut text, button_id.code());
                text.append(",");
                append_decimal(&mut text, action.code());
                assert(text@ =~= event_text(remote_id, button_id.spec_code(), action.spec_code()));
                text
            },
        }
    }

    /// Decodes one received text.
    ///
    /// The result is exactly what [`decode_text`] says of the text: one of
    /// the four messages, or the reason the text is none. A text of no known
    /// shape comes back inside the error, unchanged.
    pub fn from_str(contents: &str) -> (decoded: Result<Message, DecodeError>)
        ensures
            decoded_view(decoded) == decode_text(contents@),
    {
        let bytes = contents.as_bytes();
        if same_bytes(bytes, LOGIN_PROMPT.as_bytes()) {
            return Ok(Message::LoginPrompt);
        }
        if same_bytes(bytes, PASSWORD_PROMPT.as_bytes()) {
            return Ok(Message::PasswordPrompt);
        }
        if same_bytes(bytes, LOGGED_IN.as_bytes()) {
            return Ok(Message::LoggedIn);
        }
        match parse_event_codes(bytes) {
            None => Err(DecodeError::NotUnderstood { text: contents.to_owned() }),
            Some((remote_id, component, action)) => {
                let button_id = match ButtonId::try_from(component) {
                    Ok(button_id) => button_id,
                    Err(error) => { return Err(error); },
                };
                let action = match ButtonAction::try_from(action) {
                    Ok(action) => action,
                    Err(error) => { return Err(error); },
                };
                Ok(Message::ButtonEvent { remote_id, button_id, action })
            },
        }
    }
}

} // verus!
