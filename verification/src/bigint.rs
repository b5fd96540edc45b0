//! Numbers from bytes, through `num_bigint`.

use vstd::prelude::*;
use num_bigint::BigUint;
use crate::bitvec::{bytes_le_value, digits_value};

verus! {

/// `BigUint::from_bytes_le` reads `bytes` as a little-endian number;
/// `BigUint::to_u64_digits` gives that number's 64-bit digits, least
/// significant first, without trailing zero digits (none for zero). The
/// contract claims exactly that of the two calls.
#[verifier::external_body]
pub(crate) fn biguint_digits_from_bytes_le(bytes: &[u8]) -> (r: Vec<u64>)
    ensures
        digits_value(r@) == bytes_le_value(bytes@),
        r@.len() == 0 || r@[r@.len() - 1] != 0,
{
    BigUint::from_bytes_le(bytes).to_u64_digits()
}

} // verus!
