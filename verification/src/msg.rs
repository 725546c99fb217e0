//! The envelope: a level, the time it was made, and a payload.

use vstd::prelude::*;
use crate::level::{stream_for, Level, Stream};
use crate::outside::{
    clock_now, encode_text, encode_value, is_one_line, json_string, json_value, quotes,
    since_epoch, whole_millis,
};
use crate::text::{compose, line_is_one_line, line_of};

verus! {

/// What a record carries: a message already formatted as text, or any JSON
/// value.
pub enum Payload {
    Text(String),
    Json(serde_json::Value),
}

/// One line and the stream it is meant for. Writing it is the host's part.
pub struct Emission {
    pub stream: Stream,
    pub line: String,
}

/// The envelope of one record. It borrows the payload and is dropped once
/// the line is made.
pub struct Msg<'a> {
    pub level: Level,
    pub ts: u128,
    pub msg: &'a Payload,
}

/// The wall clock in milliseconds since the Unix epoch. A clock that stands
/// before the epoch reads as 0.
pub fn now_millis() -> u128 {
    let instant = clock_now();
    match since_epoch(&instant) {
        Ok(span) => whole_millis(&span),
        Err(_) => 0,
    }
}

/// What the encoder makes of a payload: the JSON string of a text, which
/// never fails, and for a JSON value its text or the encoder's error.
pub open spec fn encoding(payload: Payload) -> Result<Seq<char>, serde_json::Error> {
    match payload {
        Payload::Text(text) => Ok(json_string(text@)),
        Payload::Json(value) => json_value(value),
    }
}

/// The JSON text of a payload, or the encoder's error: the outcome is
/// [`encoding`] of the payload. The JSON string of a text holds no line
/// break.
pub fn encode_payload(payload: &Payload) -> (r: Result<String, serde_json::Error>)
    ensures
        match r {
            Ok(body) => encoding(*payload) == Ok::<Seq<char>, serde_json::Error>(body@),
            Err(error) => encoding(*payload) == Err::<Seq<char>, serde_json::Error>(error),
        },
        payload matches Payload::Text(text) ==> r is Ok && quotes(json_string(text@), text@),
{
    match payload {
        Payload::Text(text) => encode_text(text.as_str()),
        Payload::Json(value) => encode_value(value),
    }
}

/// One attempt, given what the encoder made of the payload: an encoded
/// payload always becomes the framed line on the level's stream, and an error
/// is handed on untouched.
pub fn settle(level: Level, ts: u128, encoded: Result<String, serde_json::Error>) -> (r: Result<
    Emission,
    serde_json::Error,
>)
    ensures
        match encoded {
            Ok(body) => r matches Ok(emission) && emission.stream == level.stream()
                && emission.line@ == line_of(level, ts as nat, body@),
            Err(error) => r == Err::<Emission, serde_json::Error>(error),
        },
{
    match encoded {
        Ok(body) => Ok(Emission { stream: stream_for(level), line: compose(level, ts, body.as_str()) }),
        Err(error) => Err(error),
    }
}

impl<'a> Msg<'a> {
    /// The capitalised name of a level, as it appears under the key `level`.
    pub fn level_to_string(level: Level) -> (name: &'static str)
        ensures
            name@ == level.name(),
    {
        match level {
            Level::Trace => "Trace",
            Level::Debug => "Debug",
            Level::Info => "Info",
            Level::Warn => "Warn",
            Level::Error => "Error",
        }
    }

    /// Wraps a payload at a level and stamps it with the clock's reading.
    pub fn new(level: Level, msg: &'a Payload) -> (envelope: Msg<'a>)
        ensures
            envelope.level == level,
            envelope.msg == msg,
    {
        Msg { level, ts: now_millis(), msg }
    }

    /// Encodes the envelope once. When the encoder accepts the payload the
    /// result is the framed line at the envelope's time, on the stream of the
    /// envelope's level; when it does not, the result is the encoder's error.
    /// A text is always accepted, and its line holds no line break.
    pub fn encode(&self) -> (r: Result<Emission, serde_json::Error>)
        ensures
            match r {
                Ok(emission) => {
                    &&& emission.stream == self.level.stream()
                    &&& encoding(*self.msg) is Ok
                    &&& emission.line@ == line_of(
                        self.level,
                        self.ts as nat,
                        encoding(*self.msg)->Ok_0,
                    )
                },
                Err(error) => encoding(*self.msg) == Err::<Seq<char>, serde_json::Error>(error),
            },
            self.msg matches Payload::Text(text) ==> r is Ok && quotes(json_string(text@), text@),
            self.msg is Text ==> (r matches Ok(emission) && is_one_line(emission.line@)),
    {
        let r = settle(self.level, self.ts, encode_payload(self.msg));
        proof {
            if self.msg is Text {
                line_is_one_line(self.level, self.ts as nat, json_string(self.msg->Text_0@));
            }
        }
        r
    }
}

} // verus!
