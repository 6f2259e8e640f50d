//! The ChaCha20-Poly1305 record-protection algorithm as a TLS cipher suite
//! sees it: its key length, its key-block shape, ciphers for each direction,
//! and export of a direction's secrets.

use vstd::prelude::*;
use crate::aead::cipher_key_size;
use crate::tls12::Tls12Cipher;
use crate::tls13::Tls13Cipher;

verus! {

/// How many bytes of the TLS 1.2 key block each part of a direction's keys takes.
#[derive(Debug, Clone, Copy, PartialEq, Eq, Structural)]
pub struct KeyBlockShape {
    pub enc_key_len: usize,
    pub fixed_iv_len: usize,
    pub explicit_nonce_len: usize,
}

/// A direction's secrets, exported for key logging or session resumption,
/// tagged with the cipher family they belong to.
#[non_exhaustive]
#[derive(Debug, Clone, Copy, PartialEq, Eq)]
pub enum ConnectionTrafficSecrets {
    Chacha20Poly1305 { key: [u8; 32], iv: [u8; 12] },
}

/// The algorithm cannot export the secrets asked for.
#[derive(Debug, Clone, Copy, PartialEq, Eq, Structural)]
pub struct UnsupportedOperationError;

/// The ChaCha20-Poly1305 AEAD algorithm.
#[derive(Debug, Clone, Copy, PartialEq, Eq, Structural)]
pub struct Chacha20Poly1305;

/// Copies a 12-byte IV out of a slice.
fn iv_from_slice(iv: &[u8]) -> (r: [u8; 12])
    requires
        iv@.len() == 12,
    ensures
        r@ == iv@,
{
    let mut out: [u8; 12] = [0u8; 12];
    let mut i: usize = 0;
    while i < 12
        invariant
            iv@.len() == 12,
            i <= 12,
            forall|j: int| 0 <= j < i ==> out@[j] == iv@[j],
        decreases 12 - i,
    {
        out[i] = iv[i];
        i = i + 1;
    }
    assert(out@ =~= iv@);
    out
}

impl Chacha20Poly1305 {
    /// The key length of the algorithm, in bytes.
    pub fn key_len(&self) -> (r: usize)
        ensures
            r == 32,
    {
        cipher_key_size()
    }

    /// The TLS 1.2 key-block shape: a 32-byte key, a 12-byte fixed IV and no
    /// explicit per-record nonce.
    pub fn key_block_shape(&self) -> (r: KeyBlockShape)
        ensures
            r.enc_key_len == 32,
            r.fixed_iv_len == 12,
            r.explicit_nonce_len == 0,
    {
        KeyBlockShape { enc_key_len: 32, fixed_iv_len: 12, explicit_nonce_len: 0 }
    }

    /// A TLS 1.3 cipher that seals records with `key` and `iv`.
    pub fn tls13_encrypter(&self, key: [u8; 32], iv: [u8; 12]) -> (r: Tls13Cipher)
        ensures
            r.key_bytes() == key@,
            r.iv_bytes() == iv@,
    {
        Tls13Cipher::new(key, iv)
    }

    /// A TLS 1.3 cipher that opens records with `key` and `iv`.
    pub fn tls13_decrypter(&self, key: [u8; 32], iv: [u8; 12]) -> (r: Tls13Cipher)
        ensures
            r.key_bytes() == key@,
            r.iv_bytes() == iv@,
    {
        Tls13Cipher::new(key, iv)
    }

    /// A TLS 1.2 cipher that seals records with `key` and the fixed IV `iv`;
    /// this algorithm takes no extra key-block material.
    pub fn tls12_encrypter(&self, key: [u8; 32], iv: &[u8], _extra: &[u8]) -> (r: Tls12Cipher)
        requires
            iv@.len() == 12,
        ensures
            r.key_bytes() == key@,
            r.iv_bytes() == iv@,
    {
        Tls12Cipher::new(key, iv_from_slice(iv))
    }

    /// A TLS 1.2 cipher that opens records with `key` and the fixed IV `iv`.
    pub fn tls12_decrypter(&self, key: [u8; 32], iv: &[u8]) -> (r: Tls12Cipher)
        requires
            iv@.len() == 12,
        ensures
            r.key_bytes() == key@,
            r.iv_bytes() == iv@,
    {
        Tls12Cipher::new(key, iv_from_slice(iv))
    }

    /// Exports a TLS 1.3 direction's key and IV, tagged as ChaCha20-Poly1305.
    pub fn tls13_extract_keys(&self, key: [u8; 32], iv: [u8; 12]) -> (r: Result<
        ConnectionTrafficSecrets,
        UnsupportedOperationError,
    >)
        ensures
            r == Ok::<ConnectionTrafficSecrets, UnsupportedOperationError>(
                ConnectionTrafficSecrets::Chacha20Poly1305 { key, iv },
            ),
    {
        Ok(ConnectionTrafficSecrets::Chacha20Poly1305 { key, iv })
    }

    /// Exports a TLS 1.2 direction's key and fixed IV, tagged as
    /// ChaCha20-Poly1305; there is no explicit nonce to carry.
    pub fn tls12_extract_keys(&self, key: [u8; 32], iv: &[u8], _explicit: &[u8]) -> (r: Result<
        ConnectionTrafficSecrets,
        UnsupportedOperationError,
    >)
        requires
            iv@.len() == 12,
        ensures
            r matches Ok(ConnectionTrafficSecrets::Chacha20Poly1305 { key: k, iv: v }) && k == key
                && v@ == iv@,
    {
        Ok(ConnectionTrafficSecrets::Chacha20Poly1305 { key, iv: iv_from_slice(iv) })
    }
}

} // verus!
