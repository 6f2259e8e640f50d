//! Additional authenticated data of a record, for both framings.

use vstd::prelude::*;
use crate::nonce::u64_be;

verus! {

/// Content type of application data; TLS 1.3 records carry it on the wire.
pub const CONTENT_TYPE_APPLICATION_DATA: u8 = 0x17;

/// Legacy record version TLS 1.2, written on every TLS 1.3 record.
pub const VERSION_TLS12: u16 = 0x0303;

/// Version TLS 1.3, given to records recovered from the inner plaintext.
pub const VERSION_TLS13: u16 = 0x0304;

/// The two big-endian bytes of `x`.
pub open spec fn u16_be(x: u16) -> Seq<u8> {
    seq![(x >> 8u16) as u8, x as u8]
}

/// A length as a two-byte big-endian field (only its low 16 bits are kept).
pub open spec fn len_be16(len: usize) -> Seq<u8> {
    seq![(len >> 8usize) as u8, len as u8]
}

/// TLS 1.2 additional data: sequence number, content type, version and the
/// plaintext length, as in the record's cleartext header.
pub open spec fn tls12_aad(seq: u64, typ: u8, version: u16, len: usize) -> Seq<u8> {
    u64_be(seq) + seq![typ] + u16_be(version) + len_be16(len)
}

/// TLS 1.3 additional data: the record header, that is the opaque content
/// type, the legacy version and the length of the wire payload.
pub open spec fn tls13_aad(wire_len: usize) -> Seq<u8> {
    seq![CONTENT_TYPE_APPLICATION_DATA, (VERSION_TLS12 >> 8u16) as u8, VERSION_TLS12 as u8]
        + len_be16(wire_len)
}

/// Builds the TLS 1.2 additional data of a record whose plaintext has `len` bytes.
pub fn make_tls12_aad(seq: u64, typ: u8, version: u16, len: usize) -> (r: [u8; 13])
    ensures
        r@ == tls12_aad(seq, typ, version, len),
{
    let mut out: [u8; 13] = [0u8; 13];
    out[0] = (seq >> 56u64) as u8;
    out[1] = (seq >> 48u64) as u8;
    out[2] = (seq >> 40u64) as u8;
    out[3] = (seq >> 32u64) as u8;
    out[4] = (seq >> 24u64) as u8;
    out[5] = (seq >> 16u64) as u8;
    out[6] = (seq >> 8u64) as u8;
    out[7] = seq as u8;
    out[8] = typ;
    out[9] = (version >> 8u16) as u8;
    out[10] = version as u8;
    out[11] = (len >> 8usize) as u8;
    out[12] = len as u8;
    assert(out@ =~= tls12_aad(seq, typ, version, len));
    out
}

/// Builds the TLS 1.3 additional data of a record whose wire payload has `wire_len` bytes.
pub fn make_tls13_aad(wire_len: usize) -> (r: [u8; 5])
    ensures
        r@ == tls13_aad(wire_len),
{
    let mut out: [u8; 5] = [0u8; 5];
    out[0] = CONTENT_TYPE_APPLICATION_DATA;
    out[1] = (VERSION_TLS12 >> 8u16) as u8;
    out[2] = VERSION_TLS12 as u8;
    out[3] = (wire_len >> 8usize) as u8;
    out[4] = wire_len as u8;
    assert(out@ =~= tls13_aad(wire_len));
    out
}

} // verus!
