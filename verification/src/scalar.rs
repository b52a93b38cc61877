//! Fixed-width wire scalars. Every numeric column element is a fixed number
//! of bytes in little-endian wire order; the one generic decoder in
//! `column` is instantiated per element type through this trait.

use vstd::bytes::{spec_u16_from_le_bytes, spec_u32_from_le_bytes, spec_u64_from_le_bytes};
use vstd::bytes::{u16_from_le_bytes, u32_from_le_bytes, u64_from_le_bytes};
use vstd::prelude::*;

verus! {

/// A value read from a fixed number of wire bytes in little-endian order.
pub trait WireScalar: Sized + Copy {
    /// How many bytes one element occupies on the wire.
    spec fn wire_width() -> nat;

    /// The value the given wire bytes denote.
    spec fn of_le_bytes(s: Seq<u8>) -> Self;

    fn byte_width() -> (w: usize)
        ensures
            w as nat == Self::wire_width(),
            1 <= w <= 8,
    ;

    fn from_le_bytes(s: &[u8]) -> (r: Self)
        requires
            s@.len() == Self::wire_width(),
        ensures
            r == Self::of_le_bytes(s@),
    ;
}

impl WireScalar for u8 {
    open spec fn wire_width() -> nat {
        1
    }

    open spec fn of_le_bytes(s: Seq<u8>) -> u8 {
        s[0]
    }

    fn byte_width() -> usize {
        1
    }

    fn from_le_bytes(s: &[u8]) -> u8 {
        s[0]
    }
}

impl WireScalar for u16 {
    open spec fn wire_width() -> nat {
        2
    }

    open spec fn of_le_bytes(s: Seq<u8>) -> u16 {
        spec_u16_from_le_bytes(s)
    }

    fn byte_width() -> usize {
        2
    }

    fn from_le_bytes(s: &[u8]) -> u16 {
        u16_from_le_bytes(s)
    }
}

impl WireScalar for u32 {
    open spec fn wire_width() -> nat {
        4
    }

    open spec fn of_le_bytes(s: Seq<u8>) -> u32 {
        spec_u32_from_le_bytes(s)
    }

    fn byte_width() -> usize {
        4
    }

    fn from_le_bytes(s: &[u8]) -> u32 {
        u32_from_le_bytes(s)
    }
}

impl WireScalar for u64 {
    open spec fn wire_width() -> nat {
        8
    }

    open spec fn of_le_bytes(s: Seq<u8>) -> u64 {
        spec_u64_from_le_bytes(s)
    }

    fn byte_width() -> usize {
        8
    }

    fn from_le_bytes(s: &[u8]) -> u64 {
        u64_from_le_bytes(s)
    }
}

/// The signed value whose two's-complement bit pattern is the unsigned
/// value `u`, for a type whose modulus is `m`.
pub open spec fn spec_signed_of(u: nat, m: nat) -> int {
    if u < m / 2 {
        u as int
    } else {
        u - m
    }
}

impl WireScalar for i8 {
    open spec fn wire_width() -> nat {
        1
    }

    open spec fn of_le_bytes(s: Seq<u8>) -> i8 {
        spec_signed_of(s[0] as nat, 0x100) as i8
    }

    fn byte_width() -> usize {
        1
    }

    fn from_le_bytes(s: &[u8]) -> i8 {
        let u = s[0];
        if u < 0x80 {
            u as i8
        } else {
            let d: i16 = u as i16 - 0x100;
            d as i8
        }
    }
}

impl WireScalar for i16 {
    open spec fn wire_width() -> nat {
        2
    }

    open spec fn of_le_bytes(s: Seq<u8>) -> i16 {
        spec_signed_of(spec_u16_from_le_bytes(s) as nat, 0x10000) as i16
    }

    fn byte_width() -> usize {
        2
    }

    fn from_le_bytes(s: &[u8]) -> i16 {
        let u = u16_from_le_bytes(s);
        if u < 0x8000 {
            u as i16
        } else {
            let d: i32 = u as i32 - 0x10000;
            d as i16
        }
    }
}

impl WireScalar for i32 {
    open spec fn wire_width() -> nat {
        4
    }

    open spec fn of_le_bytes(s: Seq<u8>) -> i32 {
        spec_signed_of(spec_u32_from_le_bytes(s) as nat, 0x1_0000_0000) as i32
    }

    fn byte_width() -> usize {
        4
    }

    fn from_le_bytes(s: &[u8]) -> i32 {
        let u = u32_from_le_bytes(s);
        if u < 0x8000_0000 {
            u as i32
        } else {
            let d: i64 = u as i64 - 0x1_0000_0000;
            d as i32
        }
    }
}

impl WireScalar for i64 {
    open spec fn wire_width() -> nat {
        8
    }

    open spec fn of_le_bytes(s: Seq<u8>) -> i64 {
        spec_signed_of(spec_u64_from_le_bytes(s) as nat, 0x1_0000_0000_0000_0000) as i64
    }

    fn byte_width() -> usize {
        8
    }

    fn from_le_bytes(s: &[u8]) -> i64 {
        let u = u64_from_le_bytes(s);
        if u < 0x8000_0000_0000_0000 {
            u as i64
        } else {
            let d: i128 = u as i128 - 0x1_0000_0000_0000_0000;
            d as i64
        }
    }
}

} // verus!
