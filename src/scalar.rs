//! The integer model of scalar encodings.
use vstd::prelude::*;

verus! {

/// The value of a little-endian byte string.
pub open spec fn le_nat(b: Seq<u8>) -> nat
    decreases b.len(),
{
    if b.len() == 0 {
        0
    } else {
        b[0] as nat + 256 * le_nat(b.subrange(1, b.len() as int))
    }
}

/// The prime order of the groups, which is the modulus of the scalar field.
pub open spec fn scalar_order() -> nat {
    0xffff_ffff_0000_0001u64 as nat
        + 0x53bd_a402_fffe_5bfeu64 as nat * 0x1_0000_0000_0000_0000
        + 0x3339_d808_09a1_d805u64 as nat * 0x1_0000_0000_0000_0000 * 0x1_0000_0000_0000_0000
        + 0x73ed_a753_299d_7d48u64 as nat * 0x1_0000_0000_0000_0000 * 0x1_0000_0000_0000_0000
            * 0x1_0000_0000_0000_0000
}

/// Whether a 32-byte string is the canonical encoding of a scalar.
pub open spec fn is_canonical_scalar(b: Seq<u8>) -> bool {
    b.len() == 32 && le_nat(b) < scalar_order()
}

} // verus!
