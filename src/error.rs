use crate::extra_uuid::Uuid;
use vstd::prelude::*;
use vstd::std_specs::convert::{FromSpecImpl, IntoSpec};
use vstd::string::{to_string_from_display_ensures, StringExecFns};

verus! {

pub type Result<T> = core::result::Result<T, Error>;

#[verifier::external_type_specification]
#[verifier::external_body]
pub struct ExIoError(std::io::Error);

/// The failures of this library.
#[derive(Debug)]
pub enum Error {
    /// A failure reported by a text codec, with the codec's own message.
    Custom(String),
    /// Decoded bytes that are not exactly 16, with the codec that produced them.
    FailToDecode16U8 { context: &'static str, actual_length: usize },
    /// A timestamp was asked of an identifier whose version tag is not 7.
    FailExtractTimeNoUuidV7(Uuid),
    /// An error of the environment, passed through.
    Io(std::io::Error),
}

/// The character of a decimal digit `d < 10`.
pub open spec fn digit_char(d: nat) -> char {
    seq!['0', '1', '2', '3', '4', '5', '6', '7', '8', '9'][d as int]
}

/// The decimal numeral of `n`, without leading zeros.
pub open spec fn decimal(n: nat) -> Seq<char>
    decreases n,
{
    if n < 10 {
        seq![digit_char(n)]
    } else {
        decimal(n / 10) + seq![digit_char(n % 10)]
    }
}

/// What `{:?}` writes for a string: the text in double quotes, with escapes.
pub uninterp spec fn debug_quoted(s: Seq<char>) -> Seq<char>;

/// What `uuid::Uuid` displays for the identifier with these bytes: lower-case hex in
/// hyphenated groups of 8, 4, 4, 4 and 12 digits.
pub uninterp spec fn hyphenated_of(b: Seq<u8>) -> Seq<char>;

/// Relies on `usize`'s `Display`: the decimal numeral of the number.
#[verifier::external_body]
fn decimal_text(n: usize) -> (r: String)
    ensures
        r@ == decimal(n as nat),
{
    n.to_string()
}

/// Relies on `str`'s `Debug`: the quoted, escaped text depends on the characters alone.
#[verifier::external_body]
fn quoted_text(s: &str) -> (r: String)
    ensures
        r@ == debug_quoted(s@),
{
    format!("{:?}", s)
}

/// Relies on `uuid::Uuid`'s `Display` for the identifier built by `uuid::Uuid::from_bytes`.
#[verifier::external_body]
fn hyphenated_text(bytes: [u8; 16]) -> (r: String)
    ensures
        r@ == hyphenated_of(bytes@),
{
    uuid::Uuid::from_bytes(bytes).to_string()
}

/// Relies on `std::io::Error`'s `Debug`; what it writes depends on the operating system.
#[verifier::external_body]
fn io_error_text(e: &std::io::Error) -> (r: String) {
    format!("{:?}", e)
}

impl Error {
    /// The text of the error, for every kind but `Io`, whose text the operating system words.
    pub open spec fn text(self) -> Seq<char> {
        match self {
            Error::Custom(m) => "Custom("@ + debug_quoted(m@) + ")"@,
            Error::FailToDecode16U8 { context, actual_length } => "FailToDecode16U8 { context: "@
                + debug_quoted(context@) + ", actual_length: "@ + decimal(actual_length as nat)
                + " }"@,
            Error::FailExtractTimeNoUuidV7(u) => "FailExtractTimeNoUuidV7("@ + hyphenated_of(u@)
                + ")"@,
            Error::Io(_) => "Io("@,
        }
    }

    /// The error that carries the message that `err` displays.
    pub fn custom_from_error<E: core::fmt::Display>(err: E) -> (r: Error)
        ensures
            r matches Error::Custom(m) && to_string_from_display_ensures::<E>(&err, m),
    {
        Error::Custom(err.to_string())
    }

    /// The error that carries the codec message `val`.
    pub fn custom<T: Into<String>>(val: T) -> (r: Error)
        ensures
            T::obeys_into_spec() ==> r == Error::Custom(val.into_spec()),
            r is Custom,
    {
        Error::Custom(val.into())
    }

    /// The text of the error, in the form `{:?}` gives the variant.
    pub fn to_string(&self) -> (r: String)
        ensures
            !(self is Io) ==> r@ == self.text(),
            self is Io ==> r@.len() >= 3 && r@.take(3) == self.text(),
    {
        match self {
            Error::Custom(m) => {
                let mut r = String::from_str("Custom(");
                let q = quoted_text(m.as_str());
                r.append(q.as_str());
                r.append(")");
                r
            },
            Error::FailToDecode16U8 { context, actual_length } => {
                let mut r = String::from_str("FailToDecode16U8 { context: ");
                let q = quoted_text(context);
                r.append(q.as_str());
                r.append(", actual_length: ");
                let n = decimal_text(*actual_length);
                r.append(n.as_str());
                r.append(" }");
                r
            },
            Error::FailExtractTimeNoUuidV7(u) => {
                let mut r = String::from_str("FailExtractTimeNoUuidV7(");
                let h = hyphenated_text(u.bytes);
                r.append(h.as_str());
                r.append(")");
                r
            },
            Error::Io(e) => {
                let mut r = String::from_str("Io(");
                let t = io_error_text(e);
                r.append(t.as_str());
                r.append(")");
                proof {
                    reveal_strlit("Io(");
                    assert(r@.take(3) =~= "Io("@);
                }
                r
            },
        }
    }
}

impl From<String> for Error {
    fn from(val: String) -> (r: Error) {
        Error::Custom(val)
    }
}

impl FromSpecImpl<String> for Error {
    open spec fn obeys_from_spec() -> bool {
        true
    }

    open spec fn from_spec(val: String) -> Error {
        Error::Custom(val)
    }
}

impl<'a> From<&'a str> for Error {
    fn from(val: &'a str) -> (r: Error) {
        Error::Custom(String::from_str(val))
    }
}

impl<'a> FromSpecImpl<&'a str> for Error {
    /// A `String` is not determined by its characters in this model, so nothing is promised.
    open spec fn obeys_from_spec() -> bool {
        false
    }

    open spec fn from_spec(val: &'a str) -> Error {
        Error::Custom(choose|s: String| s@ == val@)
    }
}

impl From<std::io::Error> for Error {
    fn from(e: std::io::Error) -> (r: Error) {
        Error::Io(e)
    }
}

impl FromSpecImpl<std::io::Error> for Error {
    open spec fn obeys_from_spec() -> bool {
        true
    }

    open spec fn from_spec(e: std::io::Error) -> Error {
        Error::Io(e)
    }
}

} // verus!
