//! What this crate takes on trust from `serde_json`, `log` and `std`.
//!
//! Nothing here is proved. Each item names the function it stands for and
//! says what is claimed of it.

use vstd::prelude::*;
use crate::level::LevelFilter;

verus! {

/// `serde_json::Value`: any JSON value. Opaque here.
#[verifier::external_type_specification]
#[verifier::external_body]
pub struct ExValue(serde_json::Value);

/// `serde_json::Error`: why an encoding failed. Opaque here.
#[verifier::external_type_specification]
#[verifier::external_body]
pub struct ExJsonError(serde_json::Error);

/// `log::SetLoggerError`: a sink was already registered. Opaque here.
#[verifier::external_type_specification]
#[verifier::external_body]
pub struct ExSetLoggerError(log::SetLoggerError);

/// `std::time::SystemTime`: an instant of the wall clock. Opaque here.
#[verifier::external_type_specification]
#[verifier::external_body]
pub struct ExSystemTime(std::time::SystemTime);

/// `std::time::SystemTimeError`: the instant lies before the reference one.
#[verifier::external_type_specification]
#[verifier::external_body]
pub struct ExSystemTimeError(std::time::SystemTimeError);

/// The JSON text that `serde_json::to_string` gives for a string: the string
/// between double quotes, escaped as `serde_json` escapes it.
pub uninterp spec fn json_string(text: Seq<char>) -> Seq<char>;

/// What `serde_json::to_string` makes of a JSON value: its JSON text, or the
/// error with which the encoder refuses the value.
pub uninterp spec fn json_value(value: serde_json::Value) -> Result<Seq<char>, serde_json::Error>;

/// The `Display` text of a `serde_json::Error`.
pub uninterp spec fn error_text(error: serde_json::Error) -> Seq<char>;

/// Whether `serde_json` copies a character into a JSON string as it is. It
/// does so for every character but the double quote, the backslash and the
/// controls below U+0020, which it escapes.
pub open spec fn is_plain(c: char) -> bool {
    c != '"' && c != '\\' && c as u32 >= 0x20
}

/// Whether a text holds no control character, and so no line break.
pub open spec fn is_one_line(text: Seq<char>) -> bool {
    forall|i: int| 0 <= i < text.len() ==> (#[trigger] text[i]) as u32 >= 0x20
}

/// What is claimed of the JSON text `body` of a string `text` beside its
/// name: it stands between double quotes, it is no shorter than the string
/// and its quotes, it holds no control character (so no line break), and a
/// run of plain characters at the start of `text` follows the opening quote
/// unchanged.
pub open spec fn quotes(body: Seq<char>, text: Seq<char>) -> bool {
    &&& body.len() >= text.len() + 2
    &&& body.first() == '"'
    &&& body.last() == '"'
    &&& is_one_line(body)
    &&& forall|n: int|
        0 <= n <= text.len() && (forall|i: int| 0 <= i < n ==> is_plain(#[trigger] text[i]))
            ==> #[trigger] body.subrange(1, n + 1) == text.subrange(0, n)
}

/// What `str::to_lowercase` gives for a string.
pub uninterp spec fn lowercase(text: Seq<char>) -> Seq<char>;

/// The small letter for a capital ASCII letter; any other character itself.
pub open spec fn ascii_lower(c: char) -> char {
    if 0x41 <= c as u32 && c as u32 <= 0x5a {
        ((c as u32 + 0x20) as u8) as char
    } else {
        c
    }
}

/// Whether every character of a text is an ASCII character.
pub open spec fn is_ascii_text(text: Seq<char>) -> bool {
    forall|i: int| 0 <= i < text.len() ==> (#[trigger] text[i]) as u32 <= 0x7f
}

/// An ASCII text with each capital letter replaced by its small letter.
pub open spec fn ascii_lowercase(text: Seq<char>) -> Seq<char> {
    Seq::new(text.len(), |i: int| ascii_lower(text[i]))
}

/// `serde_json::to_string` on a string. Claimed: it succeeds, since a string
/// is written into a growing buffer and nothing else can refuse it; the text
/// is the one that [`json_string`] names; and [`quotes`] holds of it.
#[verifier::external_body]
pub(crate) fn encode_text(text: &str) -> (r: Result<String, serde_json::Error>)
    ensures
        r is Ok,
        r matches Ok(body) ==> body@ == json_string(text@),
        r matches Ok(body) ==> quotes(body@, text@),
{
    serde_json::to_string(text)
}

/// `serde_json::to_string` on a JSON value. Claimed: the outcome is the one
/// that [`json_value`] names, so it depends on the value alone. That it
/// succeeds is not claimed.
#[verifier::external_body]
pub(crate) fn encode_value(value: &serde_json::Value) -> (r: Result<String, serde_json::Error>)
    ensures
        match r {
            Ok(body) => json_value(*value) == Ok::<Seq<char>, serde_json::Error>(body@),
            Err(error) => json_value(*value) == Err::<Seq<char>, serde_json::Error>(error),
        },
{
    serde_json::to_string(value)
}

/// The `Display` text of a `serde_json::Error`. Claimed: it is the text that
/// [`error_text`] names, so it depends on the error alone.
#[verifier::external_body]
pub(crate) fn describe(error: &serde_json::Error) -> (r: String)
    ensures
        r@ == error_text(*error),
{
    format!("{}", error)
}

/// `log::max_level`: the threshold that the front-end holds at this moment.
/// It is process-wide state, so nothing is claimed of the result.
#[verifier::external_body]
pub(crate) fn max_level() -> LevelFilter {
    match log::max_level() {
        log::LevelFilter::Off => LevelFilter::Off,
        log::LevelFilter::Error => LevelFilter::Error,
        log::LevelFilter::Warn => LevelFilter::Warn,
        log::LevelFilter::Info => LevelFilter::Info,
        log::LevelFilter::Debug => LevelFilter::Debug,
        log::LevelFilter::Trace => LevelFilter::Trace,
    }
}

/// `log::set_max_level`: stores the threshold in the front-end.
#[verifier::external_body]
pub(crate) fn set_max_level(level: LevelFilter) {
    log::set_max_level(match level {
        LevelFilter::Off => log::LevelFilter::Off,
        LevelFilter::Error => log::LevelFilter::Error,
        LevelFilter::Warn => log::LevelFilter::Warn,
        LevelFilter::Info => log::LevelFilter::Info,
        LevelFilter::Debug => log::LevelFilter::Debug,
        LevelFilter::Trace => log::LevelFilter::Trace,
    })
}

/// `std::time::SystemTime::now`: reads the wall clock.
#[verifier::external_body]
pub(crate) fn clock_now() -> std::time::SystemTime {
    std::time::SystemTime::now()
}

/// `std::time::SystemTime::duration_since`, measured from the Unix epoch.
/// It fails for an instant before the epoch.
#[verifier::external_body]
pub(crate) fn since_epoch(instant: &std::time::SystemTime) -> Result<
    std::time::Duration,
    std::time::SystemTimeError,
> {
    instant.duration_since(std::time::UNIX_EPOCH)
}

/// `std::time::Duration::as_millis`: the whole milliseconds in a duration.
#[verifier::external_body]
pub(crate) fn whole_millis(span: &std::time::Duration) -> u128 {
    span.as_millis()
}

/// `str::to_lowercase`. Claimed: the result is the text that [`lowercase`]
/// names, and for an ASCII text it is the text with its capital letters made
/// small.
#[verifier::external_body]
pub(crate) fn to_lowercase(text: &str) -> (r: String)
    ensures
        r@ == lowercase(text@),
        is_ascii_text(text@) ==> r@ == ascii_lowercase(text@),
{
    text.to_lowercase()
}

} // verus!
