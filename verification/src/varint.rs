//! The variable-length length encoding used by text columns: little-endian
//! base-128, seven value bits per byte, the high bit of a byte saying that
//! another byte follows. A value must fit in 64 bits and may span at most
//! ten bytes.

use vstd::prelude::*;

verus! {

/// Outcome of parsing one variable-length integer from a byte sequence.
pub enum VarintOutcome {
    /// A complete integer of `value`, occupying `length` bytes.
    Value { value: nat, length: nat },
    /// The bytes end before the integer does.
    Short,
    /// The encoding runs past the ten-byte limit, or the value does not fit
    /// in 64 bits.
    Overflow,
}

/// Parse a base-128 integer from the front of `bytes`, allowing at most
/// `budget` more bytes.
pub open spec fn parse_uvarint_rec(bytes: Seq<u8>, budget: nat) -> VarintOutcome
    decreases budget,
{
    if bytes.len() == 0 {
        VarintOutcome::Short
    } else if budget == 0 {
        VarintOutcome::Overflow
    } else if bytes[0] < 128 {
        VarintOutcome::Value { value: bytes[0] as nat, length: 1 }
    } else {
        match parse_uvarint_rec(bytes.skip(1), (budget - 1) as nat) {
            VarintOutcome::Value { value, length } => VarintOutcome::Value {
                value: ((bytes[0] - 128) + 128 * value) as nat,
                length: length + 1,
            },
            other => other,
        }
    }
}

/// Parse a base-128 integer from the front of `bytes`: at most ten bytes,
/// and the value must fit in 64 bits.
pub open spec fn parse_uvarint(bytes: Seq<u8>) -> VarintOutcome {
    match parse_uvarint_rec(bytes, 10) {
        VarintOutcome::Value { value, length } => if value <= u64::MAX {
            VarintOutcome::Value { value, length }
        } else {
            VarintOutcome::Overflow
        },
        other => other,
    }
}

/// A complete parse never claims more bytes than the sequence holds, and
/// always claims at least one.
pub proof fn lemma_parse_length_bounds(bytes: Seq<u8>, budget: nat)
    ensures
        parse_uvarint_rec(bytes, budget) matches VarintOutcome::Value { length, .. } ==> 1
            <= length <= bytes.len(),
    decreases budget,
{
    if bytes.len() != 0 && budget != 0 && bytes[0] >= 128 {
        lemma_parse_length_bounds(bytes.skip(1), (budget - 1) as nat);
    }
}

/// Exec-side outcome of reading one variable-length integer.
pub enum UvarintRead {
    /// The value and the number of bytes it occupied.
    Got(u64, usize),
    /// The data ends before the integer does.
    NeedMore,
    /// Over the ten-byte limit, or the value does not fit in 64 bits.
    TooBig,
}

/// Read a base-128 integer from `data` starting at `start`, allowing at most
/// `budget` more bytes; mirrors `parse_uvarint_rec` on `data@.skip(start)`.
pub fn uvarint_from(data: &Vec<u8>, start: usize, budget: u64) -> (r: UvarintRead)
    requires
        start <= data@.len(),
        budget <= 10,
    ensures
        match r {
            UvarintRead::Got(v, len) => {
                &&& parse_uvarint_rec(data@.skip(start as int), budget as nat)
                    == (VarintOutcome::Value { value: v as nat, length: len as nat })
                &&& 1 <= len <= budget
                &&& start + len <= data@.len()
            },
            UvarintRead::NeedMore => parse_uvarint_rec(data@.skip(start as int), budget as nat)
                is Short,
            UvarintRead::TooBig => {
                ||| parse_uvarint_rec(data@.skip(start as int), budget as nat) is Overflow
                ||| (parse_uvarint_rec(data@.skip(start as int), budget as nat)
                    matches VarintOutcome::Value { value, .. } && value > u64::MAX)
            },
        },
    decreases budget,
{
    if start == data.len() {
        return UvarintRead::NeedMore;
    }
    if budget == 0 {
        return UvarintRead::TooBig;
    }
    let b = data[start];
    if b < 128 {
        return UvarintRead::Got(b as u64, 1);
    }
    proof {
        assert(data@.skip(start as int).skip(1) =~= data@.skip(start as int + 1));
    }
    match uvarint_from(data, start + 1, budget - 1) {
        UvarintRead::Got(v, len) => {
            match v.checked_mul(128) {
                Some(m) => match m.checked_add((b - 128) as u64) {
                    Some(total) => UvarintRead::Got(total, len + 1),
                    None => UvarintRead::TooBig,
                },
                None => UvarintRead::TooBig,
            }
        },
        other => other,
    }
}

} // verus!
