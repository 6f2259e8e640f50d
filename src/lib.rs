//! Record protection for TLS with the ChaCha20-Poly1305 AEAD: per-record
//! nonces, additional data, the TLS 1.2 explicit-header framing and the
//! TLS 1.3 inner-plaintext framing, all with verified contracts.

pub mod nonce;
pub mod aad;
pub mod aead;
pub mod message;
pub mod inner;
pub mod tls12;
pub mod tls13;
pub mod suite;
pub mod record_cipher;
