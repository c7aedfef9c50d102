//! Content hashes.
use crate::ids::{hex_digits, is_hex, law_hex_digits, lemma_hex_digits_shape, push_hex};
use vstd::prelude::*;

verus! {

/// The BLAKE3 digest of a sequence of bytes, as `blake3::hash` computes it.
pub uninterp spec fn blake3_digest(bytes: Seq<u8>) -> Seq<u8>;

/// Calls `blake3::hash`. The digest is a function of the bytes alone and has 32 bytes.
#[verifier::external_body]
fn digest(bytes: &[u8]) -> (r: Vec<u8>)
    ensures
        r@ == blake3_digest(bytes@),
        r@.len() == 32,
{
    blake3::hash(bytes).as_bytes().to_vec()
}

/// Bytes in lower case hexadecimal, two digits for each.
pub open spec fn hex_text(bytes: Seq<u8>) -> Seq<char>
    decreases bytes.len(),
{
    if bytes.len() == 0 {
        Seq::empty()
    } else {
        hex_text(bytes.drop_last()) + hex_digits(bytes.last() as int, 2)
    }
}

proof fn lemma_hex_text_shape(bytes: Seq<u8>)
    ensures
        hex_text(bytes).len() == 2 * bytes.len(),
        forall|i: int| 0 <= i < 2 * bytes.len() ==> is_hex(#[trigger] hex_text(bytes)[i]),
    decreases bytes.len(),
{
    if bytes.len() > 0 {
        lemma_hex_text_shape(bytes.drop_last());
        lemma_hex_digits_shape(bytes.last() as int, 2);
    }
}

fn hex(bytes: &Vec<u8>) -> (r: String)
    ensures
        r@ == hex_text(bytes@),
{
    let mut out = String::new();
    let mut i: usize = 0;
    while i < bytes.len()
        invariant
            i <= bytes@.len(),
            out@ == hex_text(bytes@.take(i as int)),
        decreases bytes@.len() - i,
    {
        assert(bytes@.take(i + 1).drop_last() =~= bytes@.take(i as int));
        push_hex(&mut out, bytes[i] as u128, 2);
        i += 1;
    }
    assert(bytes@.take(i as int) =~= bytes@);
    out
}

/// The BLAKE3 hash of `bytes` in hexadecimal.
pub open spec fn content_hash_of(bytes: Seq<u8>) -> Seq<char> {
    hex_text(blake3_digest(bytes))
}

/// The BLAKE3 hash of `bytes` in hexadecimal: 64 lower case digits.
pub fn content_hash(bytes: &[u8]) -> (r: String)
    ensures
        r@ == content_hash_of(bytes@),
        r@.len() == 64,
        forall|i: int| 0 <= i < 64 ==> is_hex(#[trigger] r@[i]),
{
    let d = digest(bytes);
    proof {
        lemma_hex_text_shape(d@);
    }
    hex(&d)
}

/// Content hashes hold nothing but lower case hexadecimal digits.
pub proof fn law_content_hash_is_hex(bytes: Seq<u8>)
    ensures
        forall|i: int|
            0 <= i < content_hash_of(bytes).len() ==> is_hex(#[trigger] content_hash_of(bytes)[i]),
{
    lemma_hex_text_shape(blake3_digest(bytes));
}

/// A content hash writes the digest byte by byte, each as two hexadecimal digits, the higher
/// first. Equal contents have equal hashes, and equal hashes are of equal digests.
pub proof fn law_content_hash_writes_the_digest(
    bytes: &[u8],
    other: &[u8],
    r: String,
    other_hash: String,
)
    requires
        call_ensures(content_hash, (bytes,), r),
        call_ensures(content_hash, (other,), other_hash),
    ensures
        r@.len() == 2 * blake3_digest(bytes@).len(),
        forall|i: int|
            0 <= i < blake3_digest(bytes@).len() ==> {
                let byte = #[trigger] blake3_digest(bytes@)[i];
                &&& r@[2 * i] == "0123456789abcdef"@[byte as int / 16]
                &&& r@[2 * i + 1] == "0123456789abcdef"@[byte as int % 16]
            },
        bytes@ == other@ ==> r@ == other_hash@,
        r@ == other_hash@ ==> blake3_digest(bytes@) == blake3_digest(other@),
{
    let d = blake3_digest(bytes@);
    let e = blake3_digest(other@);
    lemma_hex_text_shape(d);
    lemma_hex_text_shape(e);
    assert forall|i: int| 0 <= i < d.len() implies ({
        let byte = #[trigger] d[i];
        &&& r@[2 * i] == "0123456789abcdef"@[byte as int / 16]
        &&& r@[2 * i + 1] == "0123456789abcdef"@[byte as int % 16]
    }) by {
        lemma_hex_text_bytes(d, i);
    }
    if r@ == other_hash@ {
        assert forall|i: int| 0 <= i < d.len() implies d[i] == e[i] by {
            lemma_hex_text_bytes(d, i);
            lemma_hex_text_bytes(e, i);
            reveal_strlit("0123456789abcdef");
        }
        assert(d =~= e);
    }
}

proof fn lemma_hex_text_bytes(bytes: Seq<u8>, i: int)
    requires
        0 <= i < bytes.len(),
    ensures
        hex_text(bytes)[2 * i] == "0123456789abcdef"@[bytes[i] as int / 16],
        hex_text(bytes)[2 * i + 1] == "0123456789abcdef"@[bytes[i] as int % 16],
    decreases bytes.len(),
{
    let front = bytes.drop_last();
    let last = bytes.last() as int;
    lemma_hex_text_shape(front);
    lemma_hex_digits_shape(last, 2);
    if i < bytes.len() - 1 {
        lemma_hex_text_bytes(front, i);
    } else {
        law_hex_digits(last, 1);
        law_hex_digits(last / 16, 0);
        assert(hex_digits(last, 2)[1] == "0123456789abcdef"@[last % 16]);
        assert(hex_digits(last / 16, 1)[0] == "0123456789abcdef"@[last / 16 % 16]);
        assert(hex_digits(last, 2)[0] == hex_digits(last / 16, 1)[0]);
    }
}

} // verus!
