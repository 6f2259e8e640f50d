//! The ChaCha20-Poly1305 primitive of the `chacha20poly1305` crate, as the
//! record layer uses it: in place on a `Vec<u8>`, with the key and nonce as
//! plain byte arrays.

use vstd::prelude::*;
use chacha20poly1305::{AeadInPlace, KeyInit, KeySizeUser};

verus! {

/// Length of the Poly1305 tag appended to every sealed message.
pub const TAG_LEN: usize = 16;

/// The ciphertext followed by the tag that ChaCha20-Poly1305 gives for
/// `plain` under `key`, `nonce` and additional data `aad`.
pub uninterp spec fn sealed(key: Seq<u8>, nonce: Seq<u8>, aad: Seq<u8>, plain: Seq<u8>) -> Seq<u8>;

/// The plaintext that ChaCha20-Poly1305 recovers from `wire` (ciphertext and
/// tag) under `key`, `nonce` and `aad`, or `None` where the tag does not verify.
pub uninterp spec fn opened(key: Seq<u8>, nonce: Seq<u8>, aad: Seq<u8>, wire: Seq<u8>) -> Option<Seq<u8>>;

/// The longest message the cipher can process: the keystream starts at block
/// one (block zero keys Poly1305) and ends before block `u32::MAX`, so
/// `u32::MAX - 1` blocks of 64 bytes are left for the message.
pub const MAX_MESSAGE_LEN: u64 = (0xffff_ffff - 1) * 64;

/// The message lengths that the cipher's keystream covers.
pub open spec fn within_block_limit(len: nat) -> bool {
    len <= MAX_MESSAGE_LEN
}

#[verifier::external_type_specification]
#[verifier::external_body]
pub struct ExAeadError(chacha20poly1305::Error);

/// Relies on `AeadInPlace::encrypt_in_place` of `chacha20poly1305::ChaCha20Poly1305`
/// on a `Vec<u8>`: a message that the keystream covers is replaced by its
/// ciphertext followed by the 16-byte tag. A longer one makes the keystream
/// panic, and appending the tag must keep the vector within `isize::MAX`
/// bytes, so both are left out.
#[verifier::external_body]
pub(crate) fn seal_in_place(key: &[u8; 32], nonce: &[u8; 12], aad: &[u8], buf: &mut Vec<u8>) -> (r: Result<(), chacha20poly1305::Error>)
    requires
        within_block_limit(old(buf)@.len()),
        old(buf)@.len() + TAG_LEN <= isize::MAX,
    ensures
        r is Ok,
        final(buf)@ == sealed(key@, nonce@, aad@, old(buf)@),
        final(buf)@.len() == old(buf)@.len() + TAG_LEN,
{
    let cipher = chacha20poly1305::ChaCha20Poly1305::new(chacha20poly1305::Key::from_slice(key));
    cipher.encrypt_in_place(chacha20poly1305::Nonce::from_slice(nonce), aad, buf)
}

/// Relies on `AeadInPlace::decrypt_in_place` of `chacha20poly1305::ChaCha20Poly1305`
/// on a `Vec<u8>`: a buffer shorter than the tag is refused; otherwise the tag
/// is checked and, where it verifies, the buffer is replaced by the plaintext.
/// As for every AEAD, opening what was sealed under the same key, nonce and
/// additional data gives back the plaintext. A ciphertext longer than the
/// keystream covers makes it panic once its tag verifies, so it is left out.
#[verifier::external_body]
pub(crate) fn open_in_place(key: &[u8; 32], nonce: &[u8; 12], aad: &[u8], buf: &mut Vec<u8>) -> (r: Result<(), chacha20poly1305::Error>)
    requires
        old(buf)@.len() < TAG_LEN || within_block_limit((old(buf)@.len() - TAG_LEN) as nat),
    ensures
        r is Ok ==> opened(key@, nonce@, aad@, old(buf)@) == Some(final(buf)@),
        r is Err ==> opened(key@, nonce@, aad@, old(buf)@) is None,
        r is Ok ==> final(buf)@.len() + TAG_LEN == old(buf)@.len(),
        old(buf)@.len() < TAG_LEN ==> r is Err,
        forall|p: Seq<u8>|
            #[trigger] sealed(key@, nonce@, aad@, p) == old(buf)@ && within_block_limit(p.len())
                ==> r is Ok && final(buf)@ == p,
{
    let cipher = chacha20poly1305::ChaCha20Poly1305::new(chacha20poly1305::Key::from_slice(key));
    cipher.decrypt_in_place(chacha20poly1305::Nonce::from_slice(nonce), aad, buf)
}

/// Relies on `KeySizeUser::key_size` of `chacha20poly1305::ChaCha20Poly1305`,
/// whose key size is `U32`.
#[verifier::external_body]
pub(crate) fn cipher_key_size() -> (r: usize)
    ensures
        r == 32,
{
    <chacha20poly1305::ChaCha20Poly1305 as KeySizeUser>::key_size()
}

} // verus!
