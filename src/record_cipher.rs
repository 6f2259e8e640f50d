//! One interface over both framings: a record cipher is either a TLS 1.2 or
//! a TLS 1.3 cipher, chosen by the negotiated protocol version.

use vstd::prelude::*;
use crate::message::{OpaqueMessage, PlainMessage, RecordError};
use crate::tls12::{tls12_decrypted, tls12_encrypted, tls12_recovers, Tls12Cipher};
use crate::tls13::{tls13_decrypted, tls13_encrypted, tls13_recovers, Tls13Cipher};

verus! {

/// Record protection for one direction of a connection, in either framing.
pub enum RecordCipher {
    Tls12(Tls12Cipher),
    Tls13(Tls13Cipher),
}

impl RecordCipher {
    /// Seals record `seq` in the framing of this cipher.
    pub fn encrypt(&self, m: &PlainMessage, seq: u64) -> (r: Result<OpaqueMessage, RecordError>)
        ensures
            match self {
                RecordCipher::Tls12(c) => tls12_encrypted(c.key_bytes(), c.iv_bytes(), m, seq, &r),
                RecordCipher::Tls13(c) => tls13_encrypted(c.key_bytes(), c.iv_bytes(), m, seq, &r),
            },
    {
        match self {
            RecordCipher::Tls12(c) => c.encrypt(m, seq),
            RecordCipher::Tls13(c) => c.encrypt(m, seq),
        }
    }

    /// Opens record `seq` in the framing of this cipher.
    pub fn decrypt(&self, m: OpaqueMessage, seq: u64) -> (r: Result<PlainMessage, RecordError>)
        ensures
            match self {
                RecordCipher::Tls12(c) => tls12_decrypted(c.key_bytes(), c.iv_bytes(), &m, seq, &r)
                    && tls12_recovers(c.key_bytes(), c.iv_bytes(), &m, seq, &r),
                RecordCipher::Tls13(c) => tls13_decrypted(c.key_bytes(), c.iv_bytes(), &m, seq, &r)
                    && tls13_recovers(c.key_bytes(), c.iv_bytes(), &m, seq, &r),
            },
    {
        match self {
            RecordCipher::Tls12(c) => c.decrypt(m, seq),
            RecordCipher::Tls13(c) => c.decrypt(m, seq),
        }
    }

    /// The length of the wire payload that sealing a payload of
    /// `payload_len` bytes gives in the framing of this cipher.
    pub fn encrypted_payload_len(&self, payload_len: usize) -> (r: usize)
        requires
            payload_len + 17 <= usize::MAX,
        ensures
            self is Tls12 ==> r == payload_len + 16,
            self is Tls13 ==> r == payload_len + 17,
    {
        match self {
            RecordCipher::Tls12(c) => c.encrypted_payload_len(payload_len),
            RecordCipher::Tls13(c) => c.encrypted_payload_len(payload_len),
        }
    }
}

} // verus!
