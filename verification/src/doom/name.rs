//! Names in records: a fixed number of bytes, padded with NUL at the end.

use vstd::prelude::*;
use vstd::utf8::{decode_utf8, valid_utf8};

verus! {

/// The length of `bytes` without the NUL bytes at its end.
pub open spec fn trimmed_len(bytes: Seq<u8>) -> nat
    decreases bytes.len(),
{
    if bytes.len() == 0 {
        0
    } else if bytes.last() != 0 {
        bytes.len()
    } else {
        trimmed_len(bytes.drop_last())
    }
}

/// The bytes without the NUL bytes at their end.
pub open spec fn trim_nul(bytes: Seq<u8>) -> Seq<u8> {
    bytes.take(trimmed_len(bytes) as int)
}

/// The trimmed length is the one length after which all is NUL and before
/// which the last byte is not.
pub proof fn lemma_trimmed_len(bytes: Seq<u8>, n: int)
    requires
        0 <= n <= bytes.len(),
        n > 0 ==> bytes[n - 1] != 0,
        forall|k: int| n <= k < bytes.len() ==> bytes[k] == 0,
    ensures
        trimmed_len(bytes) == n,
    decreases bytes.len(),
{
    if bytes.len() > 0 && n < bytes.len() {
        lemma_trimmed_len(bytes.drop_last(), n);
    }
}

/// What `String::from_utf8_lossy` makes of bytes that are not valid UTF-8.
pub uninterp spec fn lossy_text(bytes: Seq<u8>) -> Seq<char>;

/// The text of a name: the characters that its bytes encode where they are
/// valid UTF-8, and else what the lossy conversion makes of them.
pub open spec fn name_text(bytes: Seq<u8>) -> Seq<char> {
    if valid_utf8(bytes) {
        decode_utf8(bytes)
    } else {
        lossy_text(bytes)
    }
}

/// Whether every byte is below 128.
pub open spec fn is_ascii_bytes(bytes: Seq<u8>) -> bool {
    forall|i: int| 0 <= i < bytes.len() ==> #[trigger] bytes[i] < 128
}

/// The characters with the codes that the bytes hold.
pub open spec fn ascii_text(bytes: Seq<u8>) -> Seq<char> {
    Seq::new(bytes.len(), |i: int| bytes[i] as char)
}

/// A name of ASCII bytes reads as the characters with those codes.
pub proof fn lemma_ascii_name(bytes: Seq<u8>)
    requires
        is_ascii_bytes(bytes),
    ensures
        valid_utf8(bytes),
        name_text(bytes) == ascii_text(bytes),
{
    let chars = ascii_text(bytes);
    assert forall|i: int| 0 <= i < chars.len() implies '\0' <= #[trigger] chars[i] <= '\u{7f}' by {}
    vstd::utf8::is_ascii_chars_encode_utf8(chars);
    vstd::utf8::encode_utf8_valid_utf8(chars);
    vstd::utf8::encode_utf8_decode_utf8(chars);
    let again = vstd::utf8::encode_utf8(chars);
    assert forall|i: int| 0 <= i < bytes.len() implies again[i] == bytes[i] by {}
    assert(again =~= bytes);
}

/// Reads bytes as text with `String::from_utf8_lossy`. Bytes that are valid
/// UTF-8 come back as the characters they encode; of other bytes the contract
/// says only that the same bytes give the same text.
#[verifier::external_body]
fn lossy_string(bytes: &[u8]) -> (s: String)
    ensures
        s@ == (if valid_utf8(bytes@) {
            decode_utf8(bytes@)
        } else {
            lossy_text(bytes@)
        }),
{
    String::from_utf8_lossy(bytes).into_owned()
}

/// Counts the bytes of a padded name without its padding.
pub fn trimmed_length(field: &[u8]) -> (n: usize)
    ensures
        n == trimmed_len(field@),
        n <= field@.len(),
{
    let mut end: usize = field.len();
    while end > 0 && field[end - 1] == 0
        invariant
            end <= field@.len(),
            forall|k: int| end <= k < field@.len() ==> field@[k] == 0,
        decreases end,
    {
        end -= 1;
    }
    proof {
        lemma_trimmed_len(field@, end as int);
    }
    end
}

/// Reads a padded name as text, without its padding.
pub fn padded_name(field: &[u8]) -> (s: String)
    ensures
        s@ == name_text(trim_nul(field@)),
{
    let end: usize = trimmed_length(field);
    let name_bytes = &field[0..end];
    lossy_string(name_bytes)
}

} // verus!
