//! Records as the codecs take and give them, and the errors they report.

use vstd::prelude::*;

verus! {

/// A record in the clear: content type, protocol version and payload.
pub struct PlainMessage {
    pub typ: u8,
    pub version: u16,
    pub payload: Vec<u8>,
}

/// A record as it travels on the wire: its payload is protected.
pub struct OpaqueMessage {
    pub typ: u8,
    pub version: u16,
    pub payload: Vec<u8>,
}

/// Why a record could not be protected or recovered.
#[derive(Debug, Clone, Copy, PartialEq, Eq, Structural)]
pub enum RecordError {
    /// The cipher refused to seal the record (it is too long).
    EncryptError,
    /// The record's tag did not verify.
    DecryptError,
    /// The record is too short to hold a tag, or its inner plaintext holds no
    /// content type.
    MalformedRecord,
}

} // verus!
