//! An incremental codec for "capsule" records: self-describing,
//! type-tagged, length-prefixed binary records carried inside an outer
//! multiplexed framing layer.
//!
//! A capsule on the wire is a variable-length integer type tag, a
//! variable-length integer payload length, and exactly that many payload
//! bytes. The decoder works from a cursor over a byte buffer that may hold
//! none, some, or all of a capsule's bytes: it distinguishes "not enough
//! bytes yet" (retry with a longer buffer) from "malformed" (a declared
//! length that cannot be addressed), and silently skips whole capsules of
//! unrecognized types so that future record kinds do not break old readers.

use vstd::prelude::*;

pub mod capsule;
pub mod codec;
pub mod frame;
pub mod varint;

pub use capsule::Capsule;
pub use capsule::CAPSULE_TYPE_DATAGRAM;
pub use codec::Decoder;
pub use codec::Encoder;
pub use frame::Frame;
pub use frame::HFrameType;

verus! {

/// How a decode attempt can fail.
#[derive(Clone, Copy, Debug, PartialEq, Eq)]
pub enum Error {
    /// The bytes are not a well-formed capsule: the declared payload
    /// length cannot be represented as a buffer size on this platform.
    HttpFrame,
}

/// Result of the fallible operations of this crate.
pub type Res<T> = Result<T, Error>;

} // verus!
