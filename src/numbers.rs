//! Fixed-width integer types and their representable ranges.

use vstd::prelude::*;
use vstd::arithmetic::power2::{pow2, lemma2_to64};

verus! {

/// The fixed-width integer types whose ranges the library reports.
#[derive(Debug, Clone, Copy, PartialEq, Eq, Structural)]
pub enum IntKind {
    I8,
    U8,
    I32,
    U32,
    I64,
    U64,
}

/// The width of the type in bits.
pub open spec fn bit_width(kind: IntKind) -> nat {
    match kind {
        IntKind::I8 | IntKind::U8 => 8,
        IntKind::I32 | IntKind::U32 => 32,
        IntKind::I64 | IntKind::U64 => 64,
    }
}

/// Whether the type is signed (two's complement).
pub open spec fn is_signed(kind: IntKind) -> bool {
    match kind {
        IntKind::I8 | IntKind::I32 | IntKind::I64 => true,
        _ => false,
    }
}

/// The smallest value of the type.
pub open spec fn min_value(kind: IntKind) -> int {
    match kind {
        IntKind::I8 => -0x80,
        IntKind::I32 => -0x8000_0000,
        IntKind::I64 => -0x8000_0000_0000_0000,
        _ => 0,
    }
}

/// The largest value of the type.
pub open spec fn max_value(kind: IntKind) -> int {
    match kind {
        IntKind::I8 => 0x7f,
        IntKind::U8 => 0xff,
        IntKind::I32 => 0x7fff_ffff,
        IntKind::U32 => 0xffff_ffff,
        IntKind::I64 => 0x7fff_ffff_ffff_ffff,
        IntKind::U64 => 0xffff_ffff_ffff_ffff,
    }
}

/// Returns the type's `(MIN, MAX)` constants, widened to `i128`.
pub fn bounds(kind: IntKind) -> (r: (i128, i128))
    ensures
        r.0 == min_value(kind),
        r.1 == max_value(kind),
{
    match kind {
        IntKind::I8 => (i8::MIN as i128, i8::MAX as i128),
        IntKind::U8 => (u8::MIN as i128, u8::MAX as i128),
        IntKind::I32 => (i32::MIN as i128, i32::MAX as i128),
        IntKind::U32 => (u32::MIN as i128, u32::MAX as i128),
        IntKind::I64 => (i64::MIN as i128, i64::MAX as i128),
        IntKind::U64 => (u64::MIN as i128, u64::MAX as i128),
    }
}

/// The reported range is exactly the range of an integer of the type's width:
/// a signed type of `n` bits holds `-2^(n-1) ..= 2^(n-1) - 1`, an unsigned one
/// `0 ..= 2^n - 1`.
pub proof fn lemma_bounds_match_width(kind: IntKind)
    ensures
        is_signed(kind) ==> min_value(kind) == -(pow2((bit_width(kind) - 1) as nat) as int),
        is_signed(kind) ==> max_value(kind) == pow2((bit_width(kind) - 1) as nat) - 1,
        !is_signed(kind) ==> min_value(kind) == 0,
        !is_signed(kind) ==> max_value(kind) == pow2(bit_width(kind)) - 1,
{
    lemma2_to64();
    assert(pow2(63) == 0x8000_0000_0000_0000) by {
        vstd::arithmetic::power2::lemma_pow2_adds(32, 31);
    }
}

/// Returns the sum of two parameters; the sum must fit in an `i32`.
pub fn function_with_params(x: i32, y: i32) -> (r: i32)
    requires
        i32::MIN <= x + y <= i32::MAX,
    ensures
        r == x + y,
{
    x + y
}

} // verus!
