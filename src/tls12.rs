//! TLS 1.2 framing: the additional data mirrors the record header, and the
//! wire payload is the ciphertext followed by the tag.

use vstd::prelude::*;
use crate::aad::{make_tls12_aad, tls12_aad};
use crate::aead::{
    open_in_place, opened, seal_in_place, sealed, within_block_limit, MAX_MESSAGE_LEN, TAG_LEN,
};
use crate::message::{OpaqueMessage, PlainMessage, RecordError};
use crate::nonce::{derive_nonce, nonce_of};

verus! {

/// The wire payload of a TLS 1.2 record with the given header fields and plaintext.
pub open spec fn tls12_seal(key: Seq<u8>, iv: Seq<u8>, seq: u64, typ: u8, version: u16, plain: Seq<u8>) -> Seq<u8> {
    sealed(key, nonce_of(iv, seq), tls12_aad(seq, typ, version, plain.len() as usize), plain)
}

/// The plaintext recovered from the wire payload of a TLS 1.2 record of at
/// least `TAG_LEN` bytes, or `None` where its tag does not verify.
pub open spec fn tls12_open(key: Seq<u8>, iv: Seq<u8>, seq: u64, typ: u8, version: u16, wire: Seq<u8>) -> Option<Seq<u8>> {
    opened(key, nonce_of(iv, seq), tls12_aad(seq, typ, version, (wire.len() - TAG_LEN) as usize), wire)
}

/// The plaintext lengths a TLS 1.2 record can be sealed with: within the
/// cipher's limit, and with room for the tag in a vector.
pub open spec fn tls12_encryptable(len: nat) -> bool {
    len + TAG_LEN <= isize::MAX && within_block_limit(len)
}

/// The outcome of sealing record `seq` of `m`: the record keeps its content
/// type and version and its payload becomes the ciphertext followed by the
/// tag; only a payload too long for the cipher or for a vector is refused.
pub open spec fn tls12_encrypted(key: Seq<u8>, iv: Seq<u8>, m: &PlainMessage, seq: u64, r: &Result<OpaqueMessage, RecordError>) -> bool {
    &&& tls12_encryptable(m.payload@.len()) ==> (*r matches Ok(o) && o.typ == m.typ
        && o.version == m.version
        && o.payload@ == tls12_seal(key, iv, seq, m.typ, m.version, m.payload@)
        && o.payload@.len() == m.payload@.len() + TAG_LEN)
    &&& !tls12_encryptable(m.payload@.len()) ==> *r == Err::<OpaqueMessage, RecordError>(
        RecordError::EncryptError,
    )
}

/// The outcome of opening record `seq`: a payload shorter than the tag, or
/// longer than the cipher can process, is malformed; one whose tag does not
/// verify fails; otherwise the record keeps its content type and version and
/// its payload becomes the plaintext, 16 bytes shorter.
pub open spec fn tls12_decrypted(key: Seq<u8>, iv: Seq<u8>, m: &OpaqueMessage, seq: u64, r: &Result<PlainMessage, RecordError>) -> bool {
    &&& m.payload@.len() < TAG_LEN ==> *r == Err::<PlainMessage, RecordError>(
        RecordError::MalformedRecord,
    )
    &&& m.payload@.len() >= TAG_LEN && !within_block_limit((m.payload@.len() - TAG_LEN) as nat)
        ==> *r == Err::<PlainMessage, RecordError>(RecordError::MalformedRecord)
    &&& m.payload@.len() >= TAG_LEN && within_block_limit((m.payload@.len() - TAG_LEN) as nat)
        ==> match tls12_open(key, iv, seq, m.typ, m.version, m.payload@) {
        Some(p) => (*r matches Ok(pm) && pm.typ == m.typ && pm.version == m.version && pm.payload@ == p),
        None => *r == Err::<PlainMessage, RecordError>(RecordError::DecryptError),
    }
    &&& *r matches Ok(pm) ==> pm.payload@.len() + TAG_LEN == m.payload@.len()
}

/// Opening gives back every payload that sealing under the same key, IV,
/// sequence number and header produced.
pub open spec fn tls12_recovers(key: Seq<u8>, iv: Seq<u8>, m: &OpaqueMessage, seq: u64, r: &Result<PlainMessage, RecordError>) -> bool {
    forall|p: Seq<u8>|
        p.len() + TAG_LEN == m.payload@.len() && within_block_limit(p.len())
            && #[trigger] tls12_seal(key, iv, seq, m.typ, m.version, p) == m.payload@
            ==> (*r matches Ok(pm) && pm.typ == m.typ && pm.version == m.version && pm.payload@ == p)
}

/// Round trip: where `o` is what sealing `m` as record `seq` gave and `r` is
/// what opening `o` as record `seq` under the same key and IV gave, `r` is
/// `m` again, with its content type, version and payload.
pub proof fn lemma_tls12_round_trip(
    key: Seq<u8>,
    iv: Seq<u8>,
    m: PlainMessage,
    seq: u64,
    o: OpaqueMessage,
    r: Result<PlainMessage, RecordError>,
)
    requires
        tls12_encrypted(key, iv, &m, seq, &Ok(o)),
        tls12_recovers(key, iv, &o, seq, &r),
    ensures
        r matches Ok(pm) && pm.typ == m.typ && pm.version == m.version && pm.payload@ == m.payload@,
{
    assert(tls12_seal(key, iv, seq, o.typ, o.version, m.payload@) == o.payload@);
}

/// Record protection for one direction of a TLS 1.2 connection.
pub struct Tls12Cipher {
    key: [u8; 32],
    iv: [u8; 12],
}

impl Tls12Cipher {
    /// The key this cipher protects records with.
    pub closed spec fn key_bytes(&self) -> Seq<u8> {
        self.key@
    }

    /// The fixed IV that each record's nonce is derived from.
    pub closed spec fn iv_bytes(&self) -> Seq<u8> {
        self.iv@
    }

    /// A cipher for one direction, from its key and fixed IV.
    pub fn new(key: [u8; 32], iv: [u8; 12]) -> (r: Self)
        ensures
            r.key_bytes() == key@,
            r.iv_bytes() == iv@,
    {
        Tls12Cipher { key, iv }
    }

    /// Seals record `seq`. The record keeps its content type and version; its
    /// payload becomes the ciphertext followed by the tag.
    pub fn encrypt(&self, m: &PlainMessage, seq: u64) -> (r: Result<OpaqueMessage, RecordError>)
        ensures
            tls12_encrypted(self.key_bytes(), self.iv_bytes(), m, seq, &r),
    {
        if m.payload.len() > isize::MAX as usize - TAG_LEN || m.payload.len() as u64 > MAX_MESSAGE_LEN {
            return Err(RecordError::EncryptError);
        }
        let mut payload = m.payload.clone();
        assert(payload@ =~= m.payload@);
        let nonce = derive_nonce(&self.iv, seq);
        let aad = make_tls12_aad(seq, m.typ, m.version, payload.len());
        match seal_in_place(&self.key, &nonce, &aad, &mut payload) {
            Ok(()) => Ok(OpaqueMessage { typ: m.typ, version: m.version, payload }),
            Err(_) => Err(RecordError::EncryptError),
        }
    }

    /// The length of the wire payload that sealing a payload of
    /// `payload_len` bytes gives.
    pub fn encrypted_payload_len(&self, payload_len: usize) -> (r: usize)
        requires
            payload_len + TAG_LEN <= usize::MAX,
        ensures
            r == payload_len + TAG_LEN,
    {
        payload_len + TAG_LEN
    }

    /// Opens record `seq`. The record keeps its content type and version; its
    /// payload becomes the plaintext. Decrypting what `encrypt` produced for
    /// the same sequence number and header gives back the original payload.
    pub fn decrypt(&self, m: OpaqueMessage, seq: u64) -> (r: Result<PlainMessage, RecordError>)
        ensures
            tls12_decrypted(self.key_bytes(), self.iv_bytes(), &m, seq, &r),
            tls12_recovers(self.key_bytes(), self.iv_bytes(), &m, seq, &r),
    {
        let len = m.payload.len();
        if len < TAG_LEN || (len - TAG_LEN) as u64 > MAX_MESSAGE_LEN {
            return Err(RecordError::MalformedRecord);
        }
        let nonce = derive_nonce(&self.iv, seq);
        let aad = make_tls12_aad(seq, m.typ, m.version, len - TAG_LEN);
        let mut payload = m.payload;
        let res = open_in_place(&self.key, &nonce, &aad, &mut payload);
        assert forall|p: Seq<u8>|
            p.len() + TAG_LEN == m.payload@.len() && within_block_limit(p.len())
                && #[trigger] tls12_seal(self.key_bytes(), self.iv_bytes(), seq, m.typ, m.version, p) == m.payload@
            implies res is Ok && payload@ == p by {
            assert(sealed(self.key@, nonce@, aad@, p) == m.payload@);
        }
        match res {
            Ok(()) => Ok(PlainMessage { typ: m.typ, version: m.version, payload }),
            Err(_) => Err(RecordError::DecryptError),
        }
    }
}

} // verus!
