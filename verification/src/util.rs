//! Identifiers, clock readings and text encodings of byte strings.

use vstd::prelude::*;

verus! {

/// The sixteen lower-case hexadecimal digits, by value.
pub open spec fn hex_digits() -> Seq<char> {
    seq!['0', '1', '2', '3', '4', '5', '6', '7', '8', '9', 'a', 'b', 'c', 'd', 'e', 'f']
}

/// The lower-case hexadecimal text of `bytes`: two digits per byte, the high
/// half first.
pub open spec fn hex_text(bytes: Seq<u8>) -> Seq<char> {
    Seq::new(
        2 * bytes.len(),
        |i: int|
            if i % 2 == 0 {
                hex_digits()[bytes[i / 2] as int / 16]
            } else {
                hex_digits()[bytes[i / 2] as int % 16]
            },
    )
}

/// The value of a hexadecimal digit of either case, if `c` is one.
pub open spec fn hex_digit_value(c: char) -> Option<int> {
    if '0' <= c <= '9' {
        Some(c as int - '0' as int)
    } else if 'a' <= c <= 'f' {
        Some(c as int - 'a' as int + 10)
    } else if 'A' <= c <= 'F' {
        Some(c as int - 'A' as int + 10)
    } else {
        None
    }
}

/// Whether `text` is an even number of hexadecimal digits.
pub open spec fn is_hex_text(text: Seq<char>) -> bool {
    &&& text.len() % 2 == 0
    &&& forall|i: int| 0 <= i < text.len() ==> (#[trigger] hex_digit_value(text[i])) is Some
}

/// The bytes that the hexadecimal text `text` stands for.
pub open spec fn hex_bytes(text: Seq<char>) -> Seq<u8> {
    Seq::new(
        text.len() / 2,
        |i: int|
            (16 * hex_digit_value(text[2 * i]).unwrap() + hex_digit_value(
                text[2 * i + 1],
            ).unwrap()) as u8,
    )
}

/// The standard base64 text of `bytes`, with padding.
pub uninterp spec fn base64_text(bytes: Seq<u8>) -> Seq<char>;

/// Whether `text` has the shape of a random (version 4) UUID in its
/// hyphenated lower-case form.
pub open spec fn is_uuid_text(text: Seq<char>) -> bool {
    &&& text.len() == 36
    &&& forall|i: int|
        0 <= i < 36 ==> if i == 8 || i == 13 || i == 18 || i == 23 {
            text[i] == '-'
        } else {
            hex_digits().contains(#[trigger] text[i])
        }
    &&& text[14] == '4'
    &&& (text[19] == '8' || text[19] == '9' || text[19] == 'a' || text[19] == 'b')
}

#[verifier::external_type_specification]
#[verifier::external_body]
pub struct ExFromHexError(hex::FromHexError);

#[verifier::external_type_specification]
#[verifier::external_body]
pub struct ExSystemTime(std::time::SystemTime);

#[verifier::external_type_specification]
#[verifier::external_body]
pub struct ExSystemTimeError(std::time::SystemTimeError);

/// `hex::encode`: every byte becomes two lower-case hexadecimal digits, the
/// high half first. Trusted, not proved.
#[verifier::external_body]
fn hex_encode(bytes: &Vec<u8>) -> (text: String)
    ensures
        text@ == hex_text(bytes@),
{
    hex::encode(bytes)
}

/// `hex::decode`: succeeds exactly on an even number of hexadecimal digits of
/// either case, and then yields one byte per pair of digits. Trusted, not
/// proved.
#[verifier::external_body]
fn hex_decode(text: &str) -> (r: Result<Vec<u8>, hex::FromHexError>)
    ensures
        r is Ok <==> is_hex_text(text@),
        r is Ok ==> r->Ok_0@ == hex_bytes(text@),
{
    hex::decode(text)
}

/// `base64::encode`: the standard base64 text of the bytes. Trusted, not
/// proved; the text is only named, by [`base64_text`].
#[verifier::external_body]
fn base64_encode(bytes: &Vec<u8>) -> (text: String)
    ensures
        text@ == base64_text(bytes@),
{
    base64::encode(bytes)
}

/// `uuid::Uuid::new_v4`, printed: a fresh random identifier in hyphenated
/// lower-case form. Only the shape of the text is claimed. Trusted, not proved.
#[verifier::external_body]
fn random_uuid_text() -> (text: String)
    ensures
        is_uuid_text(text@),
{
    uuid::Uuid::new_v4().to_string()
}

/// `SystemTime::now`: the system clock. Nothing is claimed of the reading.
#[verifier::external_body]
fn system_time_now() -> std::time::SystemTime {
    std::time::SystemTime::now()
}

/// `SystemTime::duration_since`, measured from the Unix epoch. Nothing is
/// claimed of the result.
#[verifier::external_body]
fn since_unix_epoch(t: &std::time::SystemTime) -> Result<
    std::time::Duration,
    std::time::SystemTimeError,
> {
    t.duration_since(std::time::UNIX_EPOCH)
}

/// `Duration::as_millis`. Nothing is claimed of the result.
#[verifier::external_body]
fn duration_millis(d: &std::time::Duration) -> u128 {
    d.as_millis()
}

/// A fresh public identifier: a random UUID as text.
pub fn create_uuid() -> (id: String)
    ensures
        is_uuid_text(id@),
{
    random_uuid_text()
}

/// What a clock reading counts as: `elapsed` is the time since the Unix
/// epoch in milliseconds, or `None` where the clock stands before the epoch.
/// The milliseconds are reduced to 64 bits; a clock before the epoch reads
/// as 0.
pub open spec fn reading_millis(elapsed: Option<u128>) -> u64 {
    match elapsed {
        Some(millis) => (millis % 0x1_0000_0000_0000_0000) as u64,
        None => 0,
    }
}

/// What the clock reading `elapsed` counts as.
pub fn millis_of_reading(elapsed: Option<u128>) -> (millis: u64)
    ensures
        millis == reading_millis(elapsed),
{
    match elapsed {
        Some(millis) => (millis % 0x1_0000_0000_0000_0000) as u64,
        None => 0,
    }
}

/// Milliseconds since the Unix epoch by the system clock, reduced to 64 bits.
/// A clock that stands before the epoch reads as 0. The reading is the
/// clock's: what it counts as, whatever it is, is [`millis_of_reading`].
pub fn current_time_millis() -> u64 {
    let now = system_time_now();
    let elapsed: Option<u128> = match since_unix_epoch(&now) {
        Ok(d) => Some(duration_millis(&d)),
        Err(_) => None,
    };
    millis_of_reading(elapsed)
}

/// The lower-case hexadecimal text of `bytes`.
pub fn to_hex(bytes: &Vec<u8>) -> (text: String)
    ensures
        text@ == hex_text(bytes@),
{
    hex_encode(bytes)
}

/// The bytes that `hex_str` stands for, or `None` where it is not an even
/// number of hexadecimal digits.
pub fn try_from_hex(hex_str: &str) -> (r: Option<Vec<u8>>)
    ensures
        r is Some <==> is_hex_text(hex_str@),
        r is Some ==> r->Some_0@ == hex_bytes(hex_str@),
{
    match hex_decode(hex_str) {
        Ok(bytes) => Some(bytes),
        Err(_) => None,
    }
}

/// The bytes that the hexadecimal text `hex_str` stands for.
pub fn from_hex(hex_str: &str) -> (bytes: Vec<u8>)
    requires
        is_hex_text(hex_str@),
    ensures
        bytes@ == hex_bytes(hex_str@),
{
    match hex_decode(hex_str) {
        Ok(bytes) => bytes,
        Err(_) => Vec::new(),
    }
}

/// The standard base64 text of `bytes`.
pub fn to_base64(bytes: &Vec<u8>) -> (text: String)
    ensures
        text@ == base64_text(bytes@),
{
    base64_encode(bytes)
}

} // verus!
