//! The TLS 1.3 inner plaintext: payload, one content-type byte, then zero
//! padding.

use vstd::prelude::*;
use crate::message::RecordError;

verus! {

/// Reads an inner plaintext from its end: zero bytes are padding, the last
/// non-zero byte is the content type and what precedes it the payload.
/// `None` where every byte is zero.
pub open spec fn unpad(s: Seq<u8>) -> Option<(u8, Seq<u8>)>
    decreases s.len(),
{
    if s.len() == 0 {
        None
    } else if s.last() == 0 {
        unpad(s.drop_last())
    } else {
        Some((s.last(), s.drop_last()))
    }
}

/// `n` zero bytes.
pub open spec fn zeros(n: nat) -> Seq<u8> {
    Seq::new(n, |i: int| 0u8)
}

proof fn lemma_unpad_at(s: Seq<u8>, pos: int)
    requires
        0 <= pos < s.len(),
        s[pos] != 0,
        forall|j: int| pos < j < s.len() ==> s[j] == 0,
    ensures
        unpad(s) == Some((s[pos], s.subrange(0, pos))),
    decreases s.len(),
{
    if pos == s.len() - 1 {
        assert(s.drop_last() =~= s.subrange(0, pos));
    } else {
        let t = s.drop_last();
        assert(s.last() == 0);
        lemma_unpad_at(t, pos);
        assert(t.subrange(0, pos) =~= s.subrange(0, pos));
    }
}

/// A content type read from an inner plaintext is never zero, and the payload
/// before it is shorter than the inner plaintext.
pub proof fn lemma_unpad_bounds(s: Seq<u8>)
    ensures
        unpad(s) matches Some((typ, p)) ==> typ != 0 && p.len() < s.len(),
    decreases s.len(),
{
    if s.len() > 0 && s.last() == 0 {
        lemma_unpad_bounds(s.drop_last());
    }
}

/// Where every byte of a decrypted inner plaintext is zero, it holds no
/// content type.
pub proof fn lemma_unpad_all_zero(s: Seq<u8>)
    requires
        forall|j: int| 0 <= j < s.len() ==> s[j] == 0,
    ensures
        unpad(s) is None,
    decreases s.len(),
{
    if s.len() > 0 {
        assert(s.last() == 0);
        lemma_unpad_all_zero(s.drop_last());
    }
}

/// A payload followed by a non-zero content type and any number of zero
/// bytes of padding reads back as that content type and that payload.
pub proof fn lemma_unpad_padded(payload: Seq<u8>, typ: u8, padding: nat)
    requires
        typ != 0,
    ensures
        unpad(payload + seq![typ] + zeros(padding)) == Some((typ, payload)),
{
    let s = payload + seq![typ] + zeros(padding);
    let pos = payload.len() as int;
    assert(s[pos] == typ);
    assert forall|j: int| pos < j < s.len() implies s[j] == 0 by {
        assert(s[j] == zeros(padding)[j - pos - 1]);
    }
    lemma_unpad_at(s, pos);
    assert(s.subrange(0, pos) =~= payload);
}

/// Splits a decrypted inner plaintext into its content type and payload.
/// The whole buffer is scanned, whatever the length of the padding.
pub fn unpad_inner_plaintext(inner: Vec<u8>) -> (r: Result<(u8, Vec<u8>), RecordError>)
    ensures
        match unpad(inner@) {
            Some((typ, payload)) => r matches Ok((t, p)) && t == typ && p@ == payload,
            None => r == Err::<(u8, Vec<u8>), RecordError>(RecordError::MalformedRecord),
        },
{
    let mut found = false;
    let mut pos: usize = 0;
    let mut i: usize = 0;
    while i < inner.len()
        invariant
            i <= inner@.len(),
            found ==> pos < i && inner@[pos as int] != 0,
            found ==> forall|j: int| pos < j < i ==> inner@[j] == 0,
            !found ==> forall|j: int| 0 <= j < i ==> inner@[j] == 0,
        decreases inner@.len() - i,
    {
        if inner[i] != 0 {
            found = true;
            pos = i;
        }
        i = i + 1;
    }
    if !found {
        proof {
            lemma_unpad_all_zero(inner@);
        }
        return Err(RecordError::MalformedRecord);
    }
    proof {
        lemma_unpad_at(inner@, pos as int);
    }
    let typ = inner[pos];
    let mut payload = inner;
    payload.truncate(pos);
    Ok((typ, payload))
}

} // verus!
