//! The layout of the public inputs that tie a proof to a player's commitment
//! and to the claim it supports.
use crate::curve::ScalarBytes;
use crate::ledger::Commitment;
use vstd::prelude::*;

verus! {

/// The 32-byte big-endian field encoding of `v`.
pub open spec fn encodes_u32(b: Seq<u8>, v: u32) -> bool {
    &&& b.len() == 32
    &&& forall|i: int| 0 <= i < 28 ==> #[trigger] b[i] == 0u8
    &&& b[28] == (v >> 24u32) as u8
    &&& b[29] == (v >> 16u32) as u8
    &&& b[30] == (v >> 8u32) as u8
    &&& b[31] == v as u8
}

/// Public inputs that bind a proof to a commitment and two claimed numbers, in
/// this order: a shot's board, index and result; a draw's deck, card and index.
pub open spec fn inputs_bind(signals: Seq<ScalarBytes>, commitment: Commitment, x: u32, y: u32) -> bool {
    &&& signals.len() == 3
    &&& signals[0]@ == commitment@
    &&& encodes_u32(signals[1]@, x)
    &&& encodes_u32(signals[2]@, y)
}

fn bytes_equal(a: &ScalarBytes, b: &ScalarBytes) -> (r: bool)
    ensures
        r == (a@ == b@),
{
    let mut i: usize = 0;
    while i < 32
        invariant
            i <= 32,
            a@.len() == 32,
            b@.len() == 32,
            forall|j: int| 0 <= j < i ==> a@[j] == b@[j],
        decreases 32 - i,
    {
        if a[i] != b[i] {
            return false;
        }
        i = i + 1;
    }
    assert(a@ =~= b@);
    true
}

fn check_u32_encoding(b: &ScalarBytes, v: u32) -> (r: bool)
    ensures
        r == encodes_u32(b@, v),
{
    let mut i: usize = 0;
    while i < 28
        invariant
            i <= 28,
            b@.len() == 32,
            forall|j: int| 0 <= j < i ==> b@[j] == 0u8,
        decreases 28 - i,
    {
        if b[i] != 0u8 {
            assert(b@[i as int] != 0u8);
            return false;
        }
        i = i + 1;
    }
    b[28] == (v >> 24u32) as u8 && b[29] == (v >> 16u32) as u8 && b[30] == (v >> 8u32) as u8
        && b[31] == v as u8
}

/// Whether `signals` are exactly (commitment, x, y).
pub fn check_inputs(signals: &Vec<ScalarBytes>, commitment: &Commitment, x: u32, y: u32) -> (r: bool)
    ensures
        r == inputs_bind(signals@, *commitment, x, y),
{
    signals.len() == 3 && bytes_equal(&signals[0], commitment) && check_u32_encoding(&signals[1], x)
        && check_u32_encoding(&signals[2], y)
}

} // verus!
