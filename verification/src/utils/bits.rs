//! Single-bit access to an octet.
use vstd::prelude::*;

verus! {

/// Whether bit `k` (0 = least significant) of `v` is set.
pub open spec fn bit_set(v: u8, k: u8) -> bool {
    (v >> k) & 1 == 1
}

/// `v` with bit `k` set to `b` and every other bit kept.
pub open spec fn with_bit(v: u8, k: u8, b: bool) -> u8 {
    (v & !(1u8 << k)) | ((if b {
        1u8
    } else {
        0u8
    }) << k)
}

/// Reads bit `k` of `v`.
pub fn get_bit(v: u8, k: u8) -> (r: bool)
    requires
        k < 8,
    ensures
        r == bit_set(v, k),
{
    (v >> k) & 1 == 1
}

/// `v` with bit `k` set to `b`.
pub fn put_bit(v: u8, k: u8, b: bool) -> (r: u8)
    requires
        k < 8,
    ensures
        r == with_bit(v, k, b),
{
    let one: u8 = if b {
        1
    } else {
        0
    };
    (v & !(1u8 << k)) | (one << k)
}

/// Writing bit `k` is read back from bit `k` and leaves every other bit
/// as it was.
pub proof fn lemma_with_bit(v: u8, k: u8, b: bool)
    requires
        k < 8,
    ensures
        bit_set(with_bit(v, k, b), k) == b,
        forall|j: u8| j < 8 && j != k ==> #[trigger] bit_set(with_bit(v, k, b), j) == bit_set(v, j),
{
    lemma_with_bit_all();
}

proof fn lemma_with_bit_all()
    by (bit_vector)
    ensures
        forall|v: u8, k: u8|
            k < 8 ==> (((v & !(1u8 << k)) | (1u8 << k)) >> k) & 1 == 1,
        forall|v: u8, k: u8|
            k < 8 ==> (((v & !(1u8 << k)) | (0u8 << k)) >> k) & 1 == 0,
        forall|v: u8, k: u8, j: u8|
            k < 8 && j < 8 && j != k ==> (((v & !(1u8 << k)) | (1u8 << k)) >> j) & 1 == (v >> j)
                & 1,
        forall|v: u8, k: u8, j: u8|
            k < 8 && j < 8 && j != k ==> (((v & !(1u8 << k)) | (0u8 << k)) >> j) & 1 == (v >> j)
                & 1,
{
}

} // verus!
