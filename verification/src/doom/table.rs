//! Tables: fixed-width records, one after the other.

use crate::error::FormatError;
use vstd::prelude::*;

verus! {

/// The `i`-th record of `width` bytes in `raw`.
pub open spec fn record(raw: Seq<u8>, width: int, i: int) -> Seq<u8> {
    raw.subrange(i * width, i * width + width)
}

/// What is wrong with a table of `len` bytes that is to hold records of
/// `width` bytes: nothing where the records fill it, else its last record,
/// which is short.
pub open spec fn table_error(len: nat, width: usize) -> Option<FormatError> {
    if len % (width as nat) == 0 {
        None
    } else {
        Some(FormatError::RecordWidth { expected: width, actual: (len % (width as nat)) as usize })
    }
}

/// A table that ends less than one record after its `count`-th record has
/// that many bytes for its remainder.
pub proof fn lemma_short_rest(len: nat, width: nat, count: nat)
    requires
        width > 0,
        count * width <= len < count * width + width,
    ensures
        len % width == len - count * width,
        len / width == count,
{
    vstd::arithmetic::div_mod::lemma_fundamental_div_mod_converse(
        len as int,
        width as int,
        count as int,
        len - count * width,
    );
}

/// The record after `count` records begins where they end.
pub proof fn lemma_next_record(width: nat, count: nat)
    ensures
        (count + 1) * width == count * width + width,
{
    assert((count + 1) * width == count * width + width) by (nonlinear_arith);
}

} // verus!
