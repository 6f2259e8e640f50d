//! TLS 1.3 framing: the content type travels inside the ciphertext, the
//! header is always that of opaque application data, and the additional data
//! is that header.

use vstd::prelude::*;
use crate::aad::{make_tls13_aad, tls13_aad, CONTENT_TYPE_APPLICATION_DATA, VERSION_TLS12, VERSION_TLS13};
use crate::aead::{
    open_in_place, opened, seal_in_place, sealed, within_block_limit, MAX_MESSAGE_LEN, TAG_LEN,
};
use crate::inner::{lemma_unpad_bounds, lemma_unpad_padded, unpad, unpad_inner_plaintext, zeros};
use crate::message::{OpaqueMessage, PlainMessage, RecordError};
use crate::nonce::{derive_nonce, nonce_of};

verus! {

/// The plaintext lengths a TLS 1.3 record can be sealed with: the inner
/// plaintext is within the cipher's limit, and the wire payload fits in a
/// vector.
pub open spec fn tls13_encryptable(len: nat) -> bool {
    len + 1 + TAG_LEN <= isize::MAX && within_block_limit(len + 1)
}

/// The wire payload of a TLS 1.3 record of content type `typ` and payload
/// `plain`: the inner plaintext `plain ++ [typ]`, sealed.
pub open spec fn tls13_seal(key: Seq<u8>, iv: Seq<u8>, seq: u64, typ: u8, plain: Seq<u8>) -> Seq<u8> {
    sealed(key, nonce_of(iv, seq), tls13_aad((plain.len() + 1 + TAG_LEN) as usize), plain.push(typ))
}

/// The inner plaintext recovered from a TLS 1.3 wire payload, or `None`
/// where its tag does not verify.
pub open spec fn tls13_open(key: Seq<u8>, iv: Seq<u8>, seq: u64, wire: Seq<u8>) -> Option<Seq<u8>> {
    opened(key, nonce_of(iv, seq), tls13_aad(wire.len() as usize), wire)
}

/// The outcome of sealing record `seq` of `m`: the inner plaintext is
/// sealed and goes out as opaque application data of the legacy version
/// TLS 1.2; only a payload too long for the cipher or for a vector is refused.
pub open spec fn tls13_encrypted(key: Seq<u8>, iv: Seq<u8>, m: &PlainMessage, seq: u64, r: &Result<OpaqueMessage, RecordError>) -> bool {
    &&& tls13_encryptable(m.payload@.len()) ==> (*r matches Ok(o)
        && o.typ == CONTENT_TYPE_APPLICATION_DATA
        && o.version == VERSION_TLS12
        && o.payload@ == tls13_seal(key, iv, seq, m.typ, m.payload@)
        && o.payload@.len() == m.payload@.len() + 1 + TAG_LEN)
    &&& !tls13_encryptable(m.payload@.len()) ==> *r == Err::<OpaqueMessage, RecordError>(
        RecordError::EncryptError,
    )
}

/// The outcome of opening record `seq`: a payload too short to hold a content
/// type and a tag, or longer than the cipher can process, is malformed; one
/// whose tag does not verify fails; an inner plaintext with no content type is
/// malformed; otherwise the record carries the inner content type (never
/// zero), version TLS 1.3 and the payload, at least 17 bytes shorter.
pub open spec fn tls13_decrypted(key: Seq<u8>, iv: Seq<u8>, m: &OpaqueMessage, seq: u64, r: &Result<PlainMessage, RecordError>) -> bool {
    &&& m.payload@.len() < 1 + TAG_LEN ==> *r == Err::<PlainMessage, RecordError>(
        RecordError::MalformedRecord,
    )
    &&& m.payload@.len() >= 1 + TAG_LEN && !within_block_limit((m.payload@.len() - TAG_LEN) as nat)
        ==> *r == Err::<PlainMessage, RecordError>(RecordError::MalformedRecord)
    &&& m.payload@.len() >= 1 + TAG_LEN && within_block_limit((m.payload@.len() - TAG_LEN) as nat)
        ==> match tls13_open(key, iv, seq, m.payload@) {
        None => *r == Err::<PlainMessage, RecordError>(RecordError::DecryptError),
        Some(inner) => match unpad(inner) {
            None => *r == Err::<PlainMessage, RecordError>(RecordError::MalformedRecord),
            Some((typ, p)) => (*r matches Ok(pm) && pm.typ == typ && pm.version == VERSION_TLS13
                && pm.payload@ == p),
        },
    }
    &&& *r matches Ok(pm) ==> pm.typ != 0 && pm.payload@.len() + 1 + TAG_LEN <= m.payload@.len()
}

/// Opening reads back every inner plaintext that was sealed under the same
/// key, IV and sequence number, padded or not: its content type and payload
/// where it holds a non-zero byte, and a malformed record where it is all zero.
pub open spec fn tls13_recovers(key: Seq<u8>, iv: Seq<u8>, m: &OpaqueMessage, seq: u64, r: &Result<PlainMessage, RecordError>) -> bool {
    forall|x: Seq<u8>|
        x.len() + TAG_LEN == m.payload@.len() && within_block_limit(x.len())
            && #[trigger] sealed(key, nonce_of(iv, seq), tls13_aad(m.payload@.len() as usize), x) == m.payload@
            ==> match unpad(x) {
            Some((typ, p)) => (*r matches Ok(pm) && pm.typ == typ && pm.version == VERSION_TLS13
                && pm.payload@ == p),
            None => *r == Err::<PlainMessage, RecordError>(RecordError::MalformedRecord),
        }
}

/// Round trip: where `o` is what sealing `m` as record `seq` gave and `r` is
/// what opening `o` as record `seq` under the same key and IV gave, `r`
/// carries the content type and payload of `m`, provided that content type is
/// not zero.
pub proof fn lemma_tls13_round_trip(
    key: Seq<u8>,
    iv: Seq<u8>,
    m: PlainMessage,
    seq: u64,
    o: OpaqueMessage,
    r: Result<PlainMessage, RecordError>,
)
    requires
        m.typ != 0,
        tls13_encrypted(key, iv, &m, seq, &Ok(o)),
        tls13_recovers(key, iv, &o, seq, &r),
    ensures
        r matches Ok(pm) && pm.typ == m.typ && pm.payload@ == m.payload@,
{
    let x = m.payload@.push(m.typ);
    assert(tls13_seal(key, iv, seq, m.typ, m.payload@) == o.payload@);
    assert(sealed(key, nonce_of(iv, seq), tls13_aad(o.payload@.len() as usize), x) == o.payload@);
    lemma_unpad_padded(m.payload@, m.typ, 0);
    assert(m.payload@ + seq![m.typ] + zeros(0) =~= x);
}

/// Record protection for one direction of a TLS 1.3 connection.
pub struct Tls13Cipher {
    key: [u8; 32],
    iv: [u8; 12],
}

impl Tls13Cipher {
    /// The key this cipher protects records with.
    pub closed spec fn key_bytes(&self) -> Seq<u8> {
        self.key@
    }

    /// The fixed IV that each record's nonce is derived from.
    pub closed spec fn iv_bytes(&self) -> Seq<u8> {
        self.iv@
    }

    /// A cipher for one direction, from its key and IV.
    pub fn new(key: [u8; 32], iv: [u8; 12]) -> (r: Self)
        ensures
            r.key_bytes() == key@,
            r.iv_bytes() == iv@,
    {
        Tls13Cipher { key, iv }
    }

    /// Seals record `seq`: the content type is appended to the payload (no
    /// padding is added), and the record goes out as opaque application data
    /// of the legacy version TLS 1.2.
    pub fn encrypt(&self, m: &PlainMessage, seq: u64) -> (r: Result<OpaqueMessage, RecordError>)
        ensures
            tls13_encrypted(self.key_bytes(), self.iv_bytes(), m, seq, &r),
    {
        if m.payload.len() > isize::MAX as usize - 1 - TAG_LEN
            || m.payload.len() as u64 >= MAX_MESSAGE_LEN
        {
            return Err(RecordError::EncryptError);
        }
        let total_len = m.payload.len() + 1 + TAG_LEN;
        let mut payload = m.payload.clone();
        assert(payload@ =~= m.payload@);
        payload.push(m.typ);
        let nonce = derive_nonce(&self.iv, seq);
        let aad = make_tls13_aad(total_len);
        match seal_in_place(&self.key, &nonce, &aad, &mut payload) {
            Ok(()) => Ok(
                OpaqueMessage { typ: CONTENT_TYPE_APPLICATION_DATA, version: VERSION_TLS12, payload },
            ),
            Err(_) => Err(RecordError::EncryptError),
        }
    }

    /// The length of the wire payload that sealing a payload of
    /// `payload_len` bytes gives: the content-type byte and the tag are added.
    pub fn encrypted_payload_len(&self, payload_len: usize) -> (r: usize)
        requires
            payload_len + 1 + TAG_LEN <= usize::MAX,
        ensures
            r == payload_len + 1 + TAG_LEN,
    {
        payload_len + 1 + TAG_LEN
    }

    /// Opens record `seq` and reads its inner plaintext: trailing zero bytes
    /// are padding, the last non-zero byte is the content type. The record
    /// comes back with version TLS 1.3. Decrypting what `encrypt` produced for
    /// the same sequence number gives back the content type and payload,
    /// provided the content type is not zero.
    pub fn decrypt(&self, m: OpaqueMessage, seq: u64) -> (r: Result<PlainMessage, RecordError>)
        ensures
            tls13_decrypted(self.key_bytes(), self.iv_bytes(), &m, seq, &r),
            tls13_recovers(self.key_bytes(), self.iv_bytes(), &m, seq, &r),
    {
        let len = m.payload.len();
        if len < 1 + TAG_LEN || (len - TAG_LEN) as u64 > MAX_MESSAGE_LEN {
            proof {
                assert forall|x: Seq<u8>|
                    x.len() + TAG_LEN == m.payload@.len() && within_block_limit(x.len())
                    implies unpad(x) is None by {
                    assert(x.len() == 0);
                }
            }
            return Err(RecordError::MalformedRecord);
        }
        let nonce = derive_nonce(&self.iv, seq);
        let aad = make_tls13_aad(len);
        let mut payload = m.payload;
        let res = open_in_place(&self.key, &nonce, &aad, &mut payload);
        proof {
            if res is Ok {
                lemma_unpad_bounds(payload@);
            }
        }
        match res {
            Ok(()) => {
                let (typ, plain) = unpad_inner_plaintext(payload)?;
                Ok(PlainMessage { typ, version: VERSION_TLS13, payload: plain })
            },
            Err(_) => Err(RecordError::DecryptError),
        }
    }
}

} // verus!
