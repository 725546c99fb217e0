//! A structured logging core: each record becomes one line of JSON with the
//! keys `level`, `ts` and `msg`, destined for one of two text streams.
//!
//! The crate decides and renders; it never writes. A host performs the write
//! that an `Emission` describes and registers its sink with the `log`
//! front-end.

pub mod level;
pub mod text;
pub mod outside;
pub mod msg;
pub mod logger;
pub mod install;

pub use crate::install::{init_from_env, init_with_level, level_from_env, level_from_lower, level_from_name, AlreadyInstalled, Installer};
pub use crate::level::{enabled, stream_for, Level, LevelFilter, Stream};
pub use crate::logger::{
    do_log_encoded, finish, get_default_logger, log_at, log_envelope, recover, recover_at, EncodingFailure,
    JsonLogger,
};
pub use crate::msg::{encode_payload, now_millis, settle, Emission, Msg, Payload};
pub use crate::text::{compose, decimal_text, diagnostic_text};
