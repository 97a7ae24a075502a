//! Sealing and opening of identity-bound envelopes: the byte buffer that a
//! sealing engine reads from and writes to, the order of the steps of one
//! seal or open call, and the errors that cross the boundary to the host.
//!
//! The engine itself (key handling, the cipher, the header's byte layout) is
//! not part of this crate. Whoever drives it reports each outcome as an
//! event and is told the next step in return.

pub mod buffer;
pub mod error;
pub mod identity;
pub mod key;
pub mod sealing;
pub mod unsealing;
