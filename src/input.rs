use vstd::prelude::*;
use crate::device::PairedDevice;

verus! {

/// Why a typed answer could not be used.
#[derive(Clone, Copy, Debug, PartialEq, Eq, Structural)]
pub enum InputError {
    /// Nothing but white space was typed.
    Empty,
    /// The answer is not a decimal number.
    NotANumber,
    /// The number does not fit in a `usize`.
    TooLarge,
    /// The number names no entry of the menu, which has `count` entries.
    OutOfRange { choice: usize, count: usize },
    /// The number names no action.
    InvalidAction { code: usize },
}

/// A number read from text, or why none could be read.
pub type NumberResult = Result<usize, InputError>;

/// `s` without the white space at either end.
pub uninterp spec fn trimmed_of(s: Seq<char>) -> Seq<char>;

/// The character is an ASCII decimal digit.
pub open spec fn is_digit(c: char) -> bool {
    '0' <= c <= '9'
}

/// The digits of a number written with an optional leading `+`.
pub open spec fn digits_part(s: Seq<char>) -> Seq<char> {
    if s.len() > 0 && s[0] == '+' {
        s.drop_first()
    } else {
        s
    }
}

/// `s` is an optional `+` followed by one or more decimal digits.
pub open spec fn is_decimal(s: Seq<char>) -> bool {
    let d = digits_part(s);
    d.len() > 0 && forall|i: int| 0 <= i < d.len() ==> is_digit(#[trigger] d[i])
}

/// The value of a string of decimal digits.
pub open spec fn digits_value(d: Seq<char>) -> nat
    decreases d.len(),
{
    if d.len() == 0 {
        0
    } else {
        digits_value(d.drop_last()) * 10 + ((d.last() as u32) as int - ('0' as u32) as int) as nat
    }
}

/// The value of a number written as `is_decimal` describes.
pub open spec fn number_value(s: Seq<char>) -> nat {
    digits_value(digits_part(s))
}

/// Relies on `str::trim`: removes leading and trailing white space.
#[verifier::external_body]
fn trimmed(s: &str) -> (r: &str)
    ensures
        r@ == trimmed_of(s@),
{
    s.trim()
}

/// Relies on `str::parse::<usize>` (`from_str_radix` with radix ten): it
/// accepts an optional `+` and then digits alone, reports an empty text as
/// such, and reports a well-formed number above the maximum as an overflow.
#[verifier::external_body]
fn parse_usize(s: &str) -> (r: NumberResult)
    ensures
        (r is Ok) == (is_decimal(s@) && number_value(s@) <= usize::MAX),
        r matches Ok(n) ==> n as nat == number_value(s@),
        (r matches Err(InputError::Empty)) == (s@.len() == 0),
        r matches Err(e) ==> e is Empty || e is NotANumber || e is TooLarge,
        is_decimal(s@) && number_value(s@) > usize::MAX ==> (r matches Err(InputError::TooLarge)),
{
    match s.parse::<usize>() {
        Ok(n) => Ok(n),
        Err(e) => match e.kind() {
            std::num::IntErrorKind::Empty => Err(InputError::Empty),
            std::num::IntErrorKind::PosOverflow => Err(InputError::TooLarge),
            _ => Err(InputError::NotANumber),
        },
    }
}

/// Reads a whole answer, already trimmed, as a non-negative number.
/// A malformed answer is `NotANumber`, or `TooLarge` where its leading
/// digits alone already exceed the maximum.
pub fn parse_number(text: &str) -> (r: Result<usize, InputError>)
    ensures
        (r is Ok) <==> is_decimal(text@) && number_value(text@) <= usize::MAX,
        r matches Ok(n) ==> n as nat == number_value(text@),
        (r matches Err(InputError::Empty)) <==> text@.len() == 0,
        is_decimal(text@) && number_value(text@) > usize::MAX ==> (r matches Err(InputError::TooLarge)),
        !is_decimal(text@) && text@.len() > 0 ==> (r matches Err(InputError::NotANumber)) || (r matches Err(InputError::TooLarge)),
{
    parse_usize(text)
}

/// Reads one typed line as a number, ignoring white space around it.
pub fn read_number(line: &str) -> (r: Result<usize, InputError>)
    ensures
        ({
            let t = trimmed_of(line@);
            &&& (r is Ok) <==> is_decimal(t) && number_value(t) <= usize::MAX
            &&& r matches Ok(n) ==> n as nat == number_value(t)
            &&& (r matches Err(InputError::Empty)) <==> t.len() == 0
            &&& is_decimal(t) && number_value(t) > usize::MAX ==> (r matches Err(InputError::TooLarge))
            &&& !is_decimal(t) && t.len() > 0 ==> (r matches Err(InputError::NotANumber)) || (r matches Err(InputError::TooLarge))
        }),
{
    parse_number(trimmed(line))
}

/// Takes the device at menu position `choice`, counting from one.
pub fn select_device(devices: Vec<PairedDevice>, choice: usize) -> (r: Result<
    PairedDevice,
    InputError,
>)
    ensures
        (r is Ok) <==> 1 <= choice <= devices@.len(),
        r matches Ok(d) ==> d == devices@[choice - 1],
        r matches Err(e) ==> e == (InputError::OutOfRange {
            choice,
            count: devices@.len() as usize,
        }),
{
    if choice >= 1 && choice <= devices.len() {
        let mut devices = devices;
        Ok(devices.remove(choice - 1))
    } else {
        Err(InputError::OutOfRange { choice, count: devices.len() })
    }
}

} // verus!
