//! A verified boundary layer for embedding the Nickel configuration language
//! behind a C-style calling convention.
//!
//! A host hands over source text as raw bytes and gets back NUL-terminated
//! bytes or nothing. This library decides every step of that exchange that
//! does not need the engine itself:
//!
//! * `context`: the opaque evaluation context a host creates and releases.
//! * `marshal`: decoding source bytes into text and framing result text as
//!   NUL-terminated bytes, with the round-trip law between the two.
//! * `boundary`: what each operation hands back, given what the engine
//!   reported, and the version string.

mod boundary;
mod context;
mod marshal;

pub use boundary::{decode_request, eval_reply, typecheck_reply, version};
pub use context::NickelContext;
pub use marshal::{decode_source, frame_round_trip, framed, holds_nul, is_frame, terminate, Failure};
