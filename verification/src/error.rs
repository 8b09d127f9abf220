//! The serializable CQRS error and the event-store error it is built from.
//!
//! [`Error`] mirrors the variants of the event store's own error type, but
//! carries only plain data so that it can cross the transport boundary and be
//! rebuilt on the caller side.  The aggregate's domain error travels inside
//! [`Error::External`] as JSON text.
use serde::de::DeserializeOwned;
use vstd::prelude::*;
use vstd::string::*;

verus! {

/// A serializable error type for CQRS command and query results.
///
/// `External` holds the aggregate's domain error encoded as JSON text; use
/// [`Error::downcast_external`] to recover the typed error.
#[derive(Debug, Clone, PartialEq, Eq)]
pub enum Error {
    /// An error that is not related to event logic or parsing.
    Internal(String),
    /// An error emitted by the aggregate's own command processing, as JSON text.
    External(String),
    /// An error while deserializing an event or command.
    Format(String),
    /// An event was parsed successfully but contained unexpected data.
    Invalid,
    /// An optimistic concurrency error.
    Conflict,
}

/// The mathematical value of an [`Error`]: its variant and its text.
pub enum ErrorView {
    Internal(Seq<char>),
    External(Seq<char>),
    Format(Seq<char>),
    Invalid,
    Conflict,
}

impl View for Error {
    type V = ErrorView;

    open spec fn view(&self) -> ErrorView {
        match self {
            Error::Internal(s) => ErrorView::Internal(s@),
            Error::External(v) => ErrorView::External(v@),
            Error::Format(s) => ErrorView::Format(s@),
            Error::Invalid => ErrorView::Invalid,
            Error::Conflict => ErrorView::Conflict,
        }
    }
}

/// An error reported by the event store, with each boxed source rendered as
/// the text of its `Display` implementation.
#[derive(Debug, Clone, PartialEq, Eq)]
pub enum StoreError {
    /// A backend error (transport and the like).
    Internal(String),
    /// An error raised by user code, such as an aggregate refusing a command:
    /// the display text of the domain error and, when it is known, the domain
    /// error serialized as JSON text.
    External { message: String, serialized: Option<String> },
    /// A payload that could not be deserialized.
    Format(String),
    /// An event with unexpected data.
    Invalid,
    /// An optimistic concurrency failure.
    Conflict,
}

/// The mathematical value of a [`StoreError`].
pub enum StoreErrorView {
    Internal(Seq<char>),
    External { message: Seq<char>, serialized: Option<Seq<char>> },
    Format(Seq<char>),
    Invalid,
    Conflict,
}

impl View for StoreError {
    type V = StoreErrorView;

    open spec fn view(&self) -> StoreErrorView {
        match self {
            StoreError::Internal(s) => StoreErrorView::Internal(s@),
            StoreError::External { message, serialized } => StoreErrorView::External {
                message: message@,
                serialized: match serialized {
                    Some(j) => Some(j@),
                    None => None,
                },
            },
            StoreError::Format(s) => StoreErrorView::Format(s@),
            StoreError::Invalid => StoreErrorView::Invalid,
            StoreError::Conflict => StoreErrorView::Conflict,
        }
    }
}

/// The lowercase hexadecimal digit of `n` (for `0 <= n < 16`).
pub open spec fn hex_digit(n: int) -> char {
    if n < 10 {
        (('0' as int) + n) as char
    } else {
        (('a' as int) + n - 10) as char
    }
}

/// How `serde_json` writes one character inside a JSON string: `"` and `\`
/// and the control characters are escaped (with the short forms `\b \t \n
/// \f \r` where they exist, `\u00xx` otherwise); every other character is
/// written as it is.
pub open spec fn json_escape_char(c: char) -> Seq<char> {
    if c == '"' {
        seq!['\\', '"']
    } else if c == '\\' {
        seq!['\\', '\\']
    } else if c == '\u{8}' {
        seq!['\\', 'b']
    } else if c == '\t' {
        seq!['\\', 't']
    } else if c == '\n' {
        seq!['\\', 'n']
    } else if c == '\u{c}' {
        seq!['\\', 'f']
    } else if c == '\r' {
        seq!['\\', 'r']
    } else if (c as int) < 0x20 {
        seq!['\\', 'u', '0', '0', hex_digit((c as int) / 16), hex_digit((c as int) % 16)]
    } else {
        seq![c]
    }
}

/// The escaped contents of a JSON string holding `s`.
pub open spec fn json_escape(s: Seq<char>) -> Seq<char>
    decreases s.len(),
{
    if s.len() == 0 {
        Seq::empty()
    } else {
        json_escape(s.drop_last()) + json_escape_char(s.last())
    }
}

/// The JSON text of a JSON string whose content is `s`, as `serde_json`
/// writes it: a quote, the escaped contents, a quote.
pub open spec fn json_string_text(s: Seq<char>) -> Seq<char> {
    seq!['"'] + json_escape(s) + seq!['"']
}

/// Calls `serde_json::Value::String(..)` and renders it with its `Display`
/// implementation (compact JSON).  The contract claims that the text is the
/// quoted, escaped string described by `json_string_text`.
#[verifier::external_body]
fn encode_json_string(s: &str) -> (text: String)
    ensures
        text@ == json_string_text(s@),
{
    serde_json::Value::String(s.to_string()).to_string()
}

/// Calls `serde_json::from_str::<E>` and keeps the value when it parses.
/// Nothing is claimed of the result: it depends on `E`'s `Deserialize` impl.
#[verifier::external_body]
fn decode_json<E: DeserializeOwned>(text: &String) -> Option<E> {
    serde_json::from_str::<E>(text.as_str()).ok()
}

/// `r` is what deserializing the JSON text `payload` as `E` gives (`None`
/// when it does not deserialize).
pub closed spec fn decoded_from<E: DeserializeOwned>(payload: String, r: Option<E>) -> bool {
    call_ensures(decode_json::<E>, (&payload,), r)
}

/// The CQRS error that an event-store error becomes.  An `External` failure
/// carries the serialized domain error when it is known, and otherwise a JSON
/// string holding the domain error's display text.
pub open spec fn error_from_store(e: StoreErrorView) -> ErrorView {
    match e {
        StoreErrorView::Internal(s) => ErrorView::Internal(s),
        StoreErrorView::External { message, serialized } => match serialized {
            Some(json) => ErrorView::External(json),
            None => ErrorView::External(json_string_text(message)),
        },
        StoreErrorView::Format(s) => ErrorView::Format(s),
        StoreErrorView::Invalid => ErrorView::Invalid,
        StoreErrorView::Conflict => ErrorView::Conflict,
    }
}

/// The CQRS error that an event-store error becomes when the aggregate's
/// typed domain error may be available as JSON text (`typed_external`).
pub open spec fn error_from_store_typed(
    e: StoreErrorView,
    typed_external: Option<Seq<char>>,
) -> ErrorView {
    match e {
        StoreErrorView::External { .. } => match typed_external {
            Some(json) => ErrorView::External(json),
            None => error_from_store(e),
        },
        _ => error_from_store(e),
    }
}

/// The `Display` text of an [`Error`].
pub open spec fn error_message(e: ErrorView) -> Seq<char> {
    match e {
        ErrorView::Internal(s) => "internal error: "@ + s,
        ErrorView::External(v) => "external error: "@ + v,
        ErrorView::Format(s) => "bad envelope format: "@ + s,
        ErrorView::Invalid => "consumed invalid event in stream"@,
        ErrorView::Conflict => "event transaction failed"@,
    }
}

/// Convert an event-store error into an [`Error`].
///
/// An `External` failure carries the domain error serialized with
/// `serde_json` when it is known; otherwise a JSON string holding its display
/// text.
pub fn from_esrc_error(err: StoreError) -> (r: Error)
    ensures
        r@ == error_from_store(err@),
        match err {
            StoreError::Internal(m) => r@ == ErrorView::Internal(m@),
            StoreError::External { message, serialized } => match serialized {
                Some(json) => r@ == ErrorView::External(json@),
                None => r@ == ErrorView::External(json_string_text(message@)),
            },
            StoreError::Format(m) => r@ == ErrorView::Format(m@),
            StoreError::Invalid => r@ == ErrorView::Invalid,
            StoreError::Conflict => r@ == ErrorView::Conflict,
        },
{
    match err {
        StoreError::Internal(s) => Error::Internal(s),
        StoreError::External { message, serialized } => match serialized {
            Some(json) => Error::External(json),
            None => Error::External(encode_json_string(message.as_str())),
        },
        StoreError::Format(s) => Error::Format(s),
        StoreError::Invalid => Error::Invalid,
        StoreError::Conflict => Error::Conflict,
    }
}

/// Convert an event-store error into an [`Error`], preferring the aggregate's
/// typed domain error for the `External` variant.
///
/// `typed_external` is the aggregate error serialized as JSON text, present
/// when the boxed source could be recovered as the aggregate's error type.
/// Without it the error converts as in [`from_esrc_error`].
pub fn convert_store_error(err: StoreError, typed_external: Option<String>) -> (r: Error)
    ensures
        r@ == error_from_store_typed(
            err@,
            match typed_external {
                Some(t) => Some(t@),
                None => None,
            },
        ),
        match typed_external {
            Some(t) => err is External ==> r@ == ErrorView::External(t@),
            None => r@ == error_from_store(err@),
        },
        !(err is External) ==> r@ == error_from_store(err@),
{
    match err {
        StoreError::External { message, serialized } => match typed_external {
            Some(json) => Error::External(json),
            None => from_esrc_error(StoreError::External { message, serialized }),
        },
        other => from_esrc_error(other),
    }
}

impl Error {
    /// Attempt to deserialize the [`Error::External`] payload into a concrete
    /// aggregate error type `E`.
    ///
    /// Returns `None` when this is not the `External` variant, and also when
    /// the payload does not deserialize into `E`.
    pub fn downcast_external<E: DeserializeOwned>(&self) -> (r: Option<E>)
        ensures
            !(self is External) ==> r is None,
            r is Some ==> self is External,
            self matches Error::External(payload) ==> decoded_from(*payload, r),
    {
        match self {
            Error::External(value) => decode_json::<E>(value),
            _ => None,
        }
    }

    /// The human-readable message of this error (what its `Display` shows).
    pub fn message(&self) -> (r: String)
        ensures
            r@ == error_message(self@),
    {
        match self {
            Error::Internal(s) => String::from_str("internal error: ").concat(s.as_str()),
            Error::External(v) => String::from_str("external error: ").concat(v.as_str()),
            Error::Format(s) => String::from_str("bad envelope format: ").concat(s.as_str()),
            Error::Invalid => String::from_str("consumed invalid event in stream"),
            Error::Conflict => String::from_str("event transaction failed"),
        }
    }
}

} // verus!
