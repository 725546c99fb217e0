//! From a record to its line: threshold, envelope, two encoding attempts, routing.

use vstd::prelude::*;
use crate::level::{emits, enabled, Level, LevelFilter, Stream};
use crate::msg::{encoding, now_millis, settle, Emission, Msg, Payload};
use crate::outside::{describe, error_text, is_one_line, json_string, max_level};
use crate::text::{
    diagnostic_keeps_marker, diagnostic_of, diagnostic_text, is_diagnostic_body, line_of,
};

verus! {

/// The logger. It holds nothing: the threshold lives in the `log` front-end.
#[non_exhaustive]
pub struct JsonLogger;

const LOGGER: JsonLogger = JsonLogger;

/// Both attempts to encode a record failed, the second on a plain string.
/// The encoder never refuses a string, so no function here returns it; a
/// host that meets it all the same should stop loudly.
#[derive(Clone, Copy, Debug, PartialEq, Eq, Structural)]
pub struct EncodingFailure;

/// The JSON text of the diagnostic payload for an encoder's error: the JSON
/// string of the words `Marshal Error: ` followed by the error's text.
pub open spec fn diagnostic_body(error: serde_json::Error) -> Seq<char> {
    json_string(diagnostic_of(error_text(error)))
}

/// The `msg` of the line for a payload: its JSON text where the encoder
/// accepts it, else the diagnostic for the encoder's error.
pub open spec fn body_of(payload: Payload) -> Seq<char> {
    match encoding(payload) {
        Ok(body) => body,
        Err(error) => diagnostic_body(error),
    }
}

/// `line` is a record at `level`, made at some time, whose `msg` is `body`.
pub open spec fn is_line_with(line: Seq<char>, level: Level, body: Seq<char>) -> bool {
    exists|ts: nat| line == #[trigger] line_of(level, ts, body)
}

/// `emission` is the diagnostic record for `error` at `level`: it sits on
/// the stream of the level, it holds no line break, and its `msg` is a JSON
/// string that opens with the words `Marshal Error: ` and goes on with the
/// error's text.
pub open spec fn is_diagnostic_for(emission: Emission, level: Level, error: serde_json::Error) -> bool {
    &&& emission.stream == level.stream()
    &&& is_one_line(emission.line@)
    &&& is_line_with(emission.line@, level, diagnostic_body(error))
    &&& is_diagnostic_body(diagnostic_body(error))
}

/// `emission` is what a record at `level` with this payload comes to: it
/// sits on the stream of the level, and it is the record itself where the
/// encoder accepts the payload and the diagnostic that replaces it where
/// the encoder does not. The line of a text holds no line break.
pub open spec fn is_outcome_of(emission: Emission, level: Level, payload: Payload) -> bool {
    match encoding(payload) {
        Ok(body) => {
            &&& emission.stream == level.stream()
            &&& is_line_with(emission.line@, level, body)
            &&& payload is Text ==> is_one_line(emission.line@)
        },
        Err(error) => is_diagnostic_for(emission, level, error),
    }
}

/// The logger that the host registers.
pub fn get_default_logger() -> &'static JsonLogger {
    &LOGGER
}

/// The second attempt, at a time that the caller names. It builds an
/// envelope at the same level around the diagnostic string for `error` and
/// encodes that. A string is never refused, so the attempt gives the
/// diagnostic record; there is no third attempt.
pub fn recover_at(level: Level, ts: u128, error: &serde_json::Error) -> (r: Result<
    Emission,
    EncodingFailure,
>)
    ensures
        r matches Ok(emission) && emission.stream == level.stream() && emission.line@ == line_of(
            level,
            ts as nat,
            diagnostic_body(*error),
        ),
        r matches Ok(emission) ==> is_one_line(emission.line@),
        is_diagnostic_body(diagnostic_body(*error)),
{
    let description = describe(error);
    let diagnostic = Payload::Text(diagnostic_text(description.as_str()));
    let envelope = Msg { level, ts, msg: &diagnostic };
    let second = envelope.encode();
    proof {
        diagnostic_keeps_marker(error_text(*error), diagnostic_body(*error));
    }
    match second {
        Ok(emission) => Ok(emission),
        Err(_) => Err(EncodingFailure),
    }
}

/// The second attempt, stamped with a fresh reading of the clock: see
/// [`recover_at`].
pub fn recover(level: Level, error: &serde_json::Error) -> (r: Result<Emission, EncodingFailure>)
    ensures
        r matches Ok(emission) && is_diagnostic_for(emission, level, *error),
{
    let ts = now_millis();
    let r = recover_at(level, ts, error);
    proof {
        assert(r->Ok_0.line@ == line_of(level, ts as nat, diagnostic_body(*error)));
    }
    r
}

/// The step after the first attempt: a line that was made is final, and a
/// failure leads to the second attempt, once.
pub fn finish(level: Level, first: Result<Emission, serde_json::Error>) -> (r: Result<
    Emission,
    EncodingFailure,
>)
    ensures
        match first {
            Ok(emission) => r == Ok::<Emission, EncodingFailure>(emission),
            Err(error) => r matches Ok(emission) && is_diagnostic_for(emission, level, error),
        },
{
    match first {
        Ok(emission) => Ok(emission),
        Err(error) => recover(level, &error),
    }
}

/// Makes the line for a payload that the caller has already put through the
/// encoder, at the time `ts`. An encoded payload is framed as it is; an error
/// is replaced by its diagnostic record at the same level.
pub fn do_log_encoded(level: Level, ts: u128, encoded: Result<String, serde_json::Error>) -> (r:
    Result<Emission, EncodingFailure>)
    ensures
        match encoded {
            Ok(body) => r matches Ok(emission) && emission.stream == level.stream()
                && emission.line@ == line_of(level, ts as nat, body@),
            Err(error) => r matches Ok(emission) && is_diagnostic_for(emission, level, error),
        },
{
    finish(level, settle(level, ts, encoded))
}

/// Both attempts for an envelope that is already made. Where the encoder
/// accepts the payload the line carries the envelope's own time; where it
/// does not, the line is the diagnostic record for the encoder's error.
pub fn log_envelope(envelope: &Msg) -> (r: Result<Emission, EncodingFailure>)
    ensures
        r matches Ok(emission) && is_outcome_of(emission, envelope.level, *envelope.msg),
        r matches Ok(emission) && (encoding(*envelope.msg) matches Ok(body) ==> emission.line@
            == line_of(envelope.level, envelope.ts as nat, body)),
{
    let r = finish(envelope.level, envelope.encode());
    proof {
        if encoding(*envelope.msg) is Ok {
            assert(r->Ok_0.line@ == line_of(
                envelope.level,
                envelope.ts as nat,
                encoding(*envelope.msg)->Ok_0,
            ));
        }
    }
    r
}

/// One record from threshold to line, under a threshold that the caller names.
/// A suppressed record costs no encoding and gives `Ok(None)`; every other
/// record gives its line, or the diagnostic that replaces it.
pub fn log_at(level: Level, payload: &Payload, threshold: LevelFilter) -> (r: Result<
    Option<Emission>,
    EncodingFailure,
>)
    ensures
        match r {
            Ok(None) => !emits(level, threshold),
            Ok(Some(emission)) => emits(level, threshold) && is_outcome_of(
                emission,
                level,
                *payload,
            ),
            Err(_) => false,
        },
{
    if !enabled(level, threshold) {
        return Ok(None);
    }
    match LOGGER.do_log(level, payload) {
        Ok(emission) => Ok(Some(emission)),
        Err(failure) => Err(failure),
    }
}

impl JsonLogger {
    /// Envelope, first attempt, and the second one if the first fails. The
    /// record always comes to a line: its own, or the diagnostic for the
    /// error that the encoder gave.
    pub fn do_log(&self, level: Level, payload: &Payload) -> (r: Result<Emission, EncodingFailure>)
        ensures
            r matches Ok(emission) && is_outcome_of(emission, level, *payload),
    {
        let envelope = Msg::new(level, payload);
        log_envelope(&envelope)
    }

    /// Whether the front-end's threshold, as it stands now, lets `level`
    /// through. The threshold is read from the `log` crate at each call;
    /// [`LevelFilter::allows`] is the rule that is applied to it.
    pub fn should_log(&self, level: LevelFilter) -> bool {
        max_level().allows(level)
    }

    /// A record at `Trace`, under the threshold that the front-end holds
    /// now: nothing if the threshold suppresses it, else its line.
    pub fn trace(&self, msg: &Payload) -> (r: Result<Option<Emission>, EncodingFailure>)
        ensures
            r is Ok,
            r matches Ok(Some(emission)) ==> emission.stream == Stream::Stderr && is_outcome_of(
                emission,
                Level::Trace,
                *msg,
            ),
    {
        log_at(Level::Trace, msg, max_level())
    }

    /// A record at `Debug`, under the threshold that the front-end holds
    /// now: nothing if the threshold suppresses it, else its line.
    pub fn debug(&self, msg: &Payload) -> (r: Result<Option<Emission>, EncodingFailure>)
        ensures
            r is Ok,
            r matches Ok(Some(emission)) ==> emission.stream == Stream::Stderr && is_outcome_of(
                emission,
                Level::Debug,
                *msg,
            ),
    {
        log_at(Level::Debug, msg, max_level())
    }

    /// A record at `Info`, under the threshold that the front-end holds
    /// now: nothing if the threshold suppresses it, else its line.
    pub fn info(&self, msg: &Payload) -> (r: Result<Option<Emission>, EncodingFailure>)
        ensures
            r is Ok,
            r matches Ok(Some(emission)) ==> emission.stream == Stream::Stderr && is_outcome_of(
                emission,
                Level::Info,
                *msg,
            ),
    {
        log_at(Level::Info, msg, max_level())
    }

    /// A record at `Warn`, under the threshold that the front-end holds
    /// now: nothing if the threshold suppresses it, else its line.
    pub fn warn(&self, msg: &Payload) -> (r: Result<Option<Emission>, EncodingFailure>)
        ensures
            r is Ok,
            r matches Ok(Some(emission)) ==> emission.stream == Stream::Stdout && is_outcome_of(
                emission,
                Level::Warn,
                *msg,
            ),
    {
        log_at(Level::Warn, msg, max_level())
    }

    /// A record at `Error`, under the threshold that the front-end holds
    /// now: nothing if the threshold suppresses it, else its line.
    pub fn error(&self, msg: &Payload) -> (r: Result<Option<Emission>, EncodingFailure>)
        ensures
            r is Ok,
            r matches Ok(Some(emission)) ==> emission.stream == Stream::Stdout && is_outcome_of(
                emission,
                Level::Error,
                *msg,
            ),
    {
        log_at(Level::Error, msg, max_level())
    }
}

} // verus!
