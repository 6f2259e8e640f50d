use chacha20poly1305::aead::{Aead, Payload};
use chacha20poly1305::KeyInit;
use chacha_record::aad::{make_tls12_aad, make_tls13_aad};
use chacha_record::inner::unpad_inner_plaintext;
use chacha_record::message::{OpaqueMessage, PlainMessage, RecordError};
use chacha_record::nonce::derive_nonce;
use chacha_record::record_cipher::RecordCipher;
use chacha_record::suite::{Chacha20Poly1305, ConnectionTrafficSecrets};
use chacha_record::tls12::Tls12Cipher;
use chacha_record::tls13::Tls13Cipher;

const KEY: [u8; 32] = [0u8; 32];
const IV: [u8; 12] = [0u8; 12];

fn plain(typ: u8, version: u16, payload: &[u8]) -> PlainMessage {
    PlainMessage { typ, version, payload: payload.to_vec() }
}

fn seal_directly(key: &[u8; 32], nonce: &[u8; 12], aad: &[u8], msg: &[u8]) -> Vec<u8> {
    let cipher = chacha20poly1305::ChaCha20Poly1305::new(chacha20poly1305::Key::from_slice(key));
    cipher
        .encrypt(chacha20poly1305::Nonce::from_slice(nonce), Payload { msg, aad })
        .unwrap()
}

#[test]
fn tls12_hello_scenario() {
    let c = Tls12Cipher::new(KEY, IV);
    let o = c.encrypt(&plain(23, 0x0303, b"hello"), 0).unwrap();
    assert_eq!(o.payload.len(), 21);
    assert_eq!(o.typ, 23);
    assert_eq!(o.version, 0x0303);
    let p = c.decrypt(o, 0).unwrap();
    assert_eq!(p.payload, b"hello".to_vec());
    assert_eq!(p.typ, 23);
    assert_eq!(p.version, 0x0303);
}

#[test]
fn tls13_empty_alert_scenario() {
    let c = Tls13Cipher::new(KEY, IV);
    let o = c.encrypt(&plain(21, 0x0304, b""), 1).unwrap();
    assert_eq!(o.payload.len(), 17);
    assert_eq!(o.typ, 23);
    assert_eq!(o.version, 0x0303);
    let p = c.decrypt(o, 1).unwrap();
    assert_eq!(p.typ, 21);
    assert!(p.payload.is_empty());
    assert_eq!(p.version, 0x0304);
}

#[test]
fn tls12_matches_the_primitive() {
    let key = [7u8; 32];
    let iv = [3u8; 12];
    let c = Tls12Cipher::new(key, iv);
    let o = c.encrypt(&plain(22, 0x0303, b"record body"), 9).unwrap();
    let nonce = derive_nonce(&iv, 9);
    let aad = make_tls12_aad(9, 22, 0x0303, 11);
    assert_eq!(o.payload, seal_directly(&key, &nonce, &aad, b"record body"));
    assert_ne!(&o.payload[..11], b"record body");
}

#[test]
fn tls13_matches_the_primitive() {
    let key = [5u8; 32];
    let iv = [9u8; 12];
    let c = Tls13Cipher::new(key, iv);
    let o = c.encrypt(&plain(22, 0x0304, b"abc"), 4).unwrap();
    let nonce = derive_nonce(&iv, 4);
    let aad = make_tls13_aad(20);
    assert_eq!(o.payload, seal_directly(&key, &nonce, &aad, b"abc\x16"));
}

#[test]
fn tls12_round_trip_various_lengths() {
    let c = Tls12Cipher::new([1u8; 32], [2u8; 12]);
    for len in [0usize, 1, 15, 16, 17, 63, 64, 65, 1000, 16384] {
        let body: Vec<u8> = (0..len).map(|i| i as u8).collect();
        let o = c.encrypt(&plain(23, 0x0303, &body), len as u64).unwrap();
        assert_eq!(o.payload.len(), len + 16);
        let p = c.decrypt(o, len as u64).unwrap();
        assert_eq!(p.payload, body);
    }
}

#[test]
fn tls13_round_trip_various_lengths() {
    let c = Tls13Cipher::new([1u8; 32], [2u8; 12]);
    for len in [0usize, 1, 15, 16, 17, 63, 64, 65, 1000, 16384] {
        let body: Vec<u8> = (0..len).map(|i| i as u8).collect();
        let o = c.encrypt(&plain(22, 0x0304, &body), 77).unwrap();
        assert_eq!(o.payload.len(), len + 17);
        let p = c.decrypt(o, 77).unwrap();
        assert_eq!(p.typ, 22);
        assert_eq!(p.payload, body);
    }
}

#[test]
fn tls12_tampering_is_detected() {
    let c = Tls12Cipher::new(KEY, IV);
    let o = c.encrypt(&plain(23, 0x0303, b"hello"), 0).unwrap();
    for bit in 0..(o.payload.len() * 8) {
        let mut payload = o.payload.clone();
        payload[bit / 8] ^= 1 << (bit % 8);
        let m = OpaqueMessage { typ: 23, version: 0x0303, payload };
        assert_eq!(c.decrypt(m, 0).err(), Some(RecordError::DecryptError));
    }
    let wrong_type = OpaqueMessage { typ: 22, version: 0x0303, payload: o.payload.clone() };
    assert_eq!(c.decrypt(wrong_type, 0).err(), Some(RecordError::DecryptError));
    let wrong_version = OpaqueMessage { typ: 23, version: 0x0302, payload: o.payload.clone() };
    assert_eq!(c.decrypt(wrong_version, 0).err(), Some(RecordError::DecryptError));
    let wrong_seq = OpaqueMessage { typ: 23, version: 0x0303, payload: o.payload.clone() };
    assert_eq!(c.decrypt(wrong_seq, 1).err(), Some(RecordError::DecryptError));
}

#[test]
fn tls13_tampering_is_detected() {
    let c = Tls13Cipher::new(KEY, IV);
    let o = c.encrypt(&plain(23, 0x0304, b"hi"), 3).unwrap();
    for bit in 0..(o.payload.len() * 8) {
        let mut payload = o.payload.clone();
        payload[bit / 8] ^= 1 << (bit % 8);
        let m = OpaqueMessage { typ: 23, version: 0x0303, payload };
        assert_eq!(c.decrypt(m, 3).err(), Some(RecordError::DecryptError));
    }
    let mut longer = o.payload.clone();
    longer.push(0);
    let m = OpaqueMessage { typ: 23, version: 0x0303, payload: longer };
    assert_eq!(c.decrypt(m, 3).err(), Some(RecordError::DecryptError));
    let m = OpaqueMessage { typ: 23, version: 0x0303, payload: o.payload.clone() };
    assert_eq!(c.decrypt(m, 4).err(), Some(RecordError::DecryptError));
}

#[test]
fn tls12_short_record_is_malformed() {
    let c = Tls12Cipher::new(KEY, IV);
    let m = OpaqueMessage { typ: 23, version: 0x0303, payload: vec![0u8; 15] };
    assert_eq!(c.decrypt(m, 0).err(), Some(RecordError::MalformedRecord));
    let m = OpaqueMessage { typ: 23, version: 0x0303, payload: vec![] };
    assert_eq!(c.decrypt(m, 0).err(), Some(RecordError::MalformedRecord));
}

#[test]
fn tls13_short_record_is_malformed() {
    let c = Tls13Cipher::new(KEY, IV);
    let m = OpaqueMessage { typ: 23, version: 0x0303, payload: vec![0u8; 10] };
    assert_eq!(c.decrypt(m, 0).err(), Some(RecordError::MalformedRecord));
    let m = OpaqueMessage { typ: 23, version: 0x0303, payload: vec![0u8; 16] };
    assert_eq!(c.decrypt(m, 0).err(), Some(RecordError::MalformedRecord));
    let m = OpaqueMessage { typ: 23, version: 0x0303, payload: vec![] };
    assert_eq!(c.decrypt(m, 0).err(), Some(RecordError::MalformedRecord));
}

#[test]
fn tls13_caller_padded_record_round_trips() {
    let c = Tls13Cipher::new(KEY, IV);
    let o = c.encrypt(&plain(0, 0x0304, &[0x68, 0x69, 0x16, 0x00]), 0).unwrap();
    assert_eq!(o.payload.len(), 21);
    let p = c.decrypt(o, 0).unwrap();
    assert_eq!(p.typ, 0x16);
    assert_eq!(p.payload, b"hi".to_vec());
    assert_eq!(p.version, 0x0304);
}

#[test]
fn tls13_sealed_all_zero_payload_is_malformed() {
    let c = Tls13Cipher::new(KEY, IV);
    let o = c.encrypt(&plain(0, 0x0304, &[0, 0, 0]), 5).unwrap();
    assert_eq!(c.decrypt(o, 5).err(), Some(RecordError::MalformedRecord));
}

#[test]
fn tls13_padded_record_is_unpadded() {
    let c = Tls13Cipher::new(KEY, IV);
    let inner = b"ab\x16\x00\x00\x00";
    let nonce = derive_nonce(&IV, 2);
    let aad = make_tls13_aad(inner.len() + 16);
    let payload = seal_directly(&KEY, &nonce, &aad, inner);
    let p = c.decrypt(OpaqueMessage { typ: 23, version: 0x0303, payload }, 2).unwrap();
    assert_eq!(p.typ, 22);
    assert_eq!(p.payload, b"ab".to_vec());
}

#[test]
fn tls13_all_zero_inner_plaintext_is_malformed() {
    let c = Tls13Cipher::new(KEY, IV);
    let o = c.encrypt(&plain(0, 0x0304, b""), 5).unwrap();
    assert_eq!(c.decrypt(o, 5).err(), Some(RecordError::MalformedRecord));
    let nonce = derive_nonce(&IV, 6);
    let aad = make_tls13_aad(4 + 16);
    let payload = seal_directly(&KEY, &nonce, &aad, &[0u8; 4]);
    let m = OpaqueMessage { typ: 23, version: 0x0303, payload };
    assert_eq!(c.decrypt(m, 6).err(), Some(RecordError::MalformedRecord));
}

#[test]
fn unpad_type_then_padding() {
    let (typ, payload) = unpad_inner_plaintext(vec![1, 2, 23, 0, 0]).unwrap();
    assert_eq!(typ, 23);
    assert_eq!(payload, vec![1, 2]);
}

#[test]
fn unpad_zeros_before_the_type_stay_in_the_payload() {
    let (typ, payload) = unpad_inner_plaintext(vec![1, 2, 0, 0, 23]).unwrap();
    assert_eq!(typ, 23);
    assert_eq!(payload, vec![1, 2, 0, 0]);
}

#[test]
fn unpad_all_zero_is_malformed() {
    assert_eq!(unpad_inner_plaintext(vec![0, 0, 0]).err(), Some(RecordError::MalformedRecord));
    assert_eq!(unpad_inner_plaintext(vec![]).err(), Some(RecordError::MalformedRecord));
}

#[test]
fn unpad_type_only() {
    let (typ, payload) = unpad_inner_plaintext(vec![21]).unwrap();
    assert_eq!(typ, 21);
    assert!(payload.is_empty());
}

#[test]
fn nonce_is_iv_xor_sequence() {
    assert_eq!(derive_nonce(&IV, 0), [0u8; 12]);
    assert_eq!(derive_nonce(&IV, 1), [0, 0, 0, 0, 0, 0, 0, 0, 0, 0, 0, 1]);
    let iv: [u8; 12] = [0, 1, 2, 3, 4, 5, 6, 7, 8, 9, 10, 11];
    assert_eq!(
        derive_nonce(&iv, 0x0102_0304_0506_0708),
        [0, 1, 2, 3, 4 ^ 1, 5 ^ 2, 6 ^ 3, 7 ^ 4, 8 ^ 5, 9 ^ 6, 10 ^ 7, 11 ^ 8]
    );
    assert_eq!(derive_nonce(&iv, u64::MAX), [0, 1, 2, 3, !4, !5, !6, !7, !8, !9, !10, !11]);
}

#[test]
fn nonce_is_deterministic_and_moves_with_sequence() {
    let iv = [0xa5u8; 12];
    assert_eq!(derive_nonce(&iv, 41), derive_nonce(&iv, 41));
    assert_ne!(derive_nonce(&iv, 41), derive_nonce(&iv, 42));
    assert_ne!(derive_nonce(&iv, 255), derive_nonce(&iv, 256));
}

#[test]
fn tls12_aad_layout() {
    assert_eq!(
        make_tls12_aad(1, 23, 0x0303, 5),
        [0, 0, 0, 0, 0, 0, 0, 1, 23, 3, 3, 0, 5]
    );
    assert_eq!(
        make_tls12_aad(0x0102_0304_0506_0708, 22, 0x0301, 0x1234),
        [1, 2, 3, 4, 5, 6, 7, 8, 22, 3, 1, 0x12, 0x34]
    );
    assert_eq!(make_tls12_aad(0, 23, 0x0303, 0x1_0005)[11..], [0, 5]);
}

#[test]
fn tls13_aad_layout() {
    assert_eq!(make_tls13_aad(17), [23, 3, 3, 0, 17]);
    assert_eq!(make_tls13_aad(0x4011), [23, 3, 3, 0x40, 0x11]);
}

#[test]
fn algorithm_descriptor() {
    let a = Chacha20Poly1305;
    assert_eq!(a.key_len(), 32);
    let shape = a.key_block_shape();
    assert_eq!(shape.enc_key_len, 32);
    assert_eq!(shape.fixed_iv_len, 12);
    assert_eq!(shape.explicit_nonce_len, 0);
}

#[test]
fn extract_keys_carries_key_and_iv() {
    let a = Chacha20Poly1305;
    let key = [4u8; 32];
    let iv = [6u8; 12];
    assert_eq!(
        a.tls13_extract_keys(key, iv),
        Ok(ConnectionTrafficSecrets::Chacha20Poly1305 { key, iv })
    );
    assert_eq!(
        a.tls12_extract_keys(key, &iv, &[]),
        Ok(ConnectionTrafficSecrets::Chacha20Poly1305 { key, iv })
    );
}

#[test]
fn encrypter_and_decrypter_pair_up() {
    let a = Chacha20Poly1305;
    let key = [8u8; 32];
    let iv = [1u8; 12];
    let o = a.tls13_encrypter(key, iv).encrypt(&plain(22, 0x0304, b"x"), 0).unwrap();
    let p = a.tls13_decrypter(key, iv).decrypt(o, 0).unwrap();
    assert_eq!((p.typ, p.payload), (22, b"x".to_vec()));
    let o = a.tls12_encrypter(key, &iv, &[]).encrypt(&plain(23, 0x0303, b"y"), 0).unwrap();
    let p = a.tls12_decrypter(key, &iv).decrypt(o, 0).unwrap();
    assert_eq!(p.payload, b"y".to_vec());
}

#[test]
fn record_cipher_dispatches_on_framing() {
    let a = Chacha20Poly1305;
    let tls12 = RecordCipher::Tls12(a.tls12_encrypter(KEY, &IV, &[]));
    let tls13 = RecordCipher::Tls13(a.tls13_encrypter(KEY, IV));
    assert_eq!(tls12.encrypted_payload_len(5), 21);
    assert_eq!(tls13.encrypted_payload_len(5), 22);
    let o12 = tls12.encrypt(&plain(23, 0x0303, b"hello"), 0).unwrap();
    assert_eq!((o12.typ, o12.version, o12.payload.len()), (23, 0x0303, 21));
    let o13 = tls13.encrypt(&plain(22, 0x0304, b"hello"), 0).unwrap();
    assert_eq!((o13.typ, o13.version, o13.payload.len()), (23, 0x0303, 22));
    let p12 = tls12.decrypt(o12, 0).unwrap();
    assert_eq!((p12.typ, p12.version, p12.payload), (23, 0x0303, b"hello".to_vec()));
    let p13 = tls13.decrypt(o13, 0).unwrap();
    assert_eq!((p13.typ, p13.version, p13.payload), (22, 0x0304, b"hello".to_vec()));
}

#[test]
fn tls12_aad_binds_the_plaintext_length_not_the_wire_length() {
    let c = Tls12Cipher::new(KEY, IV);
    let o = c.encrypt(&plain(23, 0x0303, b"abcdef"), 12).unwrap();
    let nonce = derive_nonce(&IV, 12);
    let wrong_aad = make_tls12_aad(12, 23, 0x0303, 22);
    assert_ne!(o.payload, seal_directly(&KEY, &nonce, &wrong_aad, b"abcdef"));
}

#[test]
fn overhead_is_sixteen_or_seventeen() {
    let c12 = Tls12Cipher::new(KEY, IV);
    let c13 = Tls13Cipher::new(KEY, IV);
    assert_eq!(c12.encrypted_payload_len(0), 16);
    assert_eq!(c13.encrypted_payload_len(0), 17);
    assert_eq!(c12.encrypted_payload_len(16384), 16400);
    assert_eq!(c13.encrypted_payload_len(16384), 16401);
}
