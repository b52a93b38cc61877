//! The type dispatch and decode engine: a wire type identifier plus an
//! element count select one column decoder, which reads exactly the bytes
//! the column needs from the source and returns an immutable,
//! reference-counted column buffer. A source shortfall never yields a
//! partial buffer: the source is left where the column began, so the same
//! logical decode can be retried once more bytes have arrived.

use crate::errors::{DriverError, Error, IoError};
use crate::scalar::WireScalar;
use crate::source::ByteSource;
use crate::timezone::Timezone;
use crate::varint::{parse_uvarint, VarintOutcome};
use std::sync::Arc;
use vstd::arithmetic::mul::lemma_mul_inequality;
use vstd::prelude::*;
use vstd::slice::slice_subrange;
use vstd::string::StringExecFns;

verus! {

// ----- the registry of recognized wire types -----

/// The closed registry of recognized wire types.
#[derive(Clone, Copy, PartialEq, Eq, Structural, Debug)]
pub enum WireType {
    UInt8,
    UInt16,
    UInt32,
    UInt64,
    Int8,
    Int16,
    Int32,
    Int64,
    Float32,
    Float64,
    Text,
    Date,
    DateTime,
}

/// The wire type a type identifier names (case-sensitive, exact match), or
/// `None` for an identifier outside the recognized set.
pub open spec fn wire_type_of(name: Seq<char>) -> Option<WireType> {
    if name == "UInt8"@ {
        Some(WireType::UInt8)
    } else if name == "UInt16"@ {
        Some(WireType::UInt16)
    } else if name == "UInt32"@ {
        Some(WireType::UInt32)
    } else if name == "UInt64"@ {
        Some(WireType::UInt64)
    } else if name == "Int8"@ {
        Some(WireType::Int8)
    } else if name == "Int16"@ {
        Some(WireType::Int16)
    } else if name == "Int32"@ {
        Some(WireType::Int32)
    } else if name == "Int64"@ {
        Some(WireType::Int64)
    } else if name == "Float32"@ {
        Some(WireType::Float32)
    } else if name == "Float64"@ {
        Some(WireType::Float64)
    } else if name == "String"@ {
        Some(WireType::Text)
    } else if name == "Date"@ {
        Some(WireType::Date)
    } else if name == "DateTime"@ {
        Some(WireType::DateTime)
    } else {
        None
    }
}

fn str_eq(a: &str, b: &str) -> (r: bool)
    ensures
        r == (a@ == b@),
{
    let x = a.to_owned();
    let y = b.to_owned();
    x == y
}

/// Match a type identifier against the registry.
pub fn parse_wire_type(name: &str) -> (r: Option<WireType>)
    ensures
        r == wire_type_of(name@),
{
    if str_eq(name, "UInt8") {
        Some(WireType::UInt8)
    } else if str_eq(name, "UInt16") {
        Some(WireType::UInt16)
    } else if str_eq(name, "UInt32") {
        Some(WireType::UInt32)
    } else if str_eq(name, "UInt64") {
        Some(WireType::UInt64)
    } else if str_eq(name, "Int8") {
        Some(WireType::Int8)
    } else if str_eq(name, "Int16") {
        Some(WireType::Int16)
    } else if str_eq(name, "Int32") {
        Some(WireType::Int32)
    } else if str_eq(name, "Int64") {
        Some(WireType::Int64)
    } else if str_eq(name, "Float32") {
        Some(WireType::Float32)
    } else if str_eq(name, "Float64") {
        Some(WireType::Float64)
    } else if str_eq(name, "String") {
        Some(WireType::Text)
    } else if str_eq(name, "Date") {
        Some(WireType::Date)
    } else if str_eq(name, "DateTime") {
        Some(WireType::DateTime)
    } else {
        None
    }
}

// ----- fixed-width decode -----

/// The `count` scalars that the front of `bytes` denotes, element `i` read
/// from bytes `i * width .. (i + 1) * width` in little-endian order.
pub open spec fn scalars_of<T: WireScalar>(bytes: Seq<u8>, count: nat) -> Seq<T> {
    Seq::new(
        count,
        |i: int|
            T::of_le_bytes(
                bytes.subrange(i * T::wire_width(), i * T::wire_width() + T::wire_width()),
            ),
    )
}

/// Read `count` fixed-width scalars, or fail without consuming anything.
pub fn load_scalars<T: WireScalar>(src: &mut ByteSource, count: usize) -> (r: Result<
    Vec<T>,
    IoError,
>)
    requires
        old(src).wf(),
    ensures
        final(src).wf(),
        final(src).total_bytes() == old(src).total_bytes(),
        final(src).is_open() == old(src).is_open(),
        match r {
            Ok(v) => {
                &&& old(src).available().len() >= count * T::wire_width()
                &&& v@ == scalars_of::<T>(old(src).available(), count as nat)
                &&& final(src).consumed() == old(src).consumed() + count * T::wire_width()
            },
            Err(e) => {
                &&& old(src).available().len() < count * T::wire_width()
                &&& final(src).consumed() == old(src).consumed()
                &&& e.is_shortfall(old(src).is_open())
            },
        },
{
    let w = T::byte_width();
    let total = match count.checked_mul(w) {
        Some(t) => t,
        None => {
            return Err(IoError::shortfall(src.open_now()));
        },
    };
    let buf = match src.read_bytes(total) {
        Ok(b) => b,
        Err(e) => {
            return Err(e);
        },
    };
    let ghost avail = old(src).available();
    let mut out: Vec<T> = Vec::new();
    let mut i: usize = 0;
    while i < count
        invariant
            i <= count,
            w as nat == T::wire_width(),
            1 <= w <= 8,
            count * w == total,
            total <= usize::MAX,
            avail.len() >= total,
            buf@ == avail.take(total as int),
            buf@.len() == total,
            out@.len() == i,
            forall|j: int|
                0 <= j < i ==> out@[j] == T::of_le_bytes(
                    #[trigger] buf@.subrange(j * w, j * w + w),
                ),
        decreases count - i,
    {
        proof {
            lemma_mul_inequality(i as int + 1, count as int, w as int);
            lemma_mul_inequality(i as int, count as int, w as int);
            assert((i as int + 1) * w == i as int * w + w) by (nonlinear_arith);
        }
        let lo = i * w;
        let hi = lo + w;
        let window = slice_subrange(buf.as_slice(), lo, hi);
        let elem = T::from_le_bytes(window);
        out.push(elem);
        i = i + 1;
    }
    proof {
        assert forall|j: int| 0 <= j < count implies out@[j] == scalars_of::<T>(
            avail,
            count as nat,
        )[j] by {
            lemma_mul_inequality(j + 1, count as int, w as int);
            assert((j + 1) * w == j * w + w) by (nonlinear_arith);
            assert(buf@.subrange(j * w, j * w + w) =~= avail.subrange(j * w, j * w + w));
        }
        assert(out@ =~= scalars_of::<T>(avail, count as nat));
    }
    Ok(out)
}

// ----- length-prefixed text decode -----

/// Outcome of parsing a run of length-prefixed byte strings.
pub enum TextParse {
    /// The strings in wire order and the number of bytes they occupied.
    Done { items: Seq<Seq<u8>>, used: nat },
    /// The bytes end before the run does.
    Short,
    /// A length prefix does not fit in 64 bits or in this machine's sizes.
    Malformed,
}

/// Parse `count` length-prefixed byte strings from the front of `avail`:
/// each is a variable-length integer giving its byte length, then that many
/// raw bytes.
pub open spec fn parse_texts(avail: Seq<u8>, count: nat) -> TextParse
    decreases count,
{
    if count == 0 {
        TextParse::Done { items: Seq::empty(), used: 0 }
    } else {
        match parse_uvarint(avail) {
            VarintOutcome::Short => TextParse::Short,
            VarintOutcome::Overflow => TextParse::Malformed,
            VarintOutcome::Value { value, length } => if value > usize::MAX {
                TextParse::Malformed
            } else if avail.len() < length + value {
                TextParse::Short
            } else {
                match parse_texts(avail.skip((length + value) as int), (count - 1) as nat) {
                    TextParse::Done { items, used } => TextParse::Done {
                        items: seq![avail.subrange(length as int, (length + value) as int)]
                            + items,
                        used: length + value + used,
                    },
                    other => other,
                }
            },
        }
    }
}

/// Prefix already parsed (`items` over `used` bytes) joined with the parse
/// of what follows.
pub open spec fn text_extend(items: Seq<Seq<u8>>, used: nat, rest: TextParse) -> TextParse {
    match rest {
        TextParse::Done { items: tail_items, used: tail_used } => TextParse::Done {
            items: items + tail_items,
            used: used + tail_used,
        },
        other => other,
    }
}

proof fn lemma_text_extend_assoc(a: Seq<Seq<u8>>, ua: nat, b: Seq<Seq<u8>>, ub: nat, rest: TextParse)
    ensures
        text_extend(a, ua, text_extend(b, ub, rest)) == text_extend(a + b, ua + ub, rest),
{
    match rest {
        TextParse::Done { items, used } => {
            assert(a + (b + items) =~= (a + b) + items);
        },
        _ => {},
    }
}

/// Read `count` length-prefixed byte strings, or fail without consuming
/// anything.
pub fn load_texts(src: &mut ByteSource, count: usize) -> (r: Result<Vec<Vec<u8>>, Error>)
    requires
        old(src).wf(),
    ensures
        final(src).wf(),
        final(src).total_bytes() == old(src).total_bytes(),
        final(src).is_open() == old(src).is_open(),
        match r {
            Ok(v) => {
                &&& parse_texts(old(src).available(), count as nat) matches TextParse::Done {
                    items,
                    used,
                }
                &&& v@.map_values(|s: Vec<u8>| s@) == items
                &&& final(src).consumed() == old(src).consumed() + used
            },
            Err(e) => {
                &&& final(src).consumed() == old(src).consumed()
                &&& match parse_texts(old(src).available(), count as nat) {
                    TextParse::Short => e matches Error::Io(io) && io.is_shortfall(
                        old(src).is_open(),
                    ),
                    TextParse::Malformed => e == Error::Driver(DriverError::Overflow),
                    TextParse::Done { .. } => false,
                }
            },
        },
{
    let start = src.position();
    let mut out: Vec<Vec<u8>> = Vec::new();
    proof {
        assert(out@.map_values(|s: Vec<u8>| s@) =~= Seq::<Seq<u8>>::empty());
        match parse_texts(old(src).available(), count as nat) {
            TextParse::Done { items, used } => {
                assert(Seq::<Seq<u8>>::empty() + items =~= items);
            },
            _ => {},
        }
    }
    let mut i: usize = 0;
    while i < count
        invariant
            i <= count,
            src.wf(),
            src.total_bytes() == old(src).total_bytes(),
            src.is_open() == old(src).is_open(),
            start == old(src).consumed(),
            src.consumed() >= start,
            out@.len() == i,
            parse_texts(old(src).available(), count as nat) == text_extend(
                out@.map_values(|s: Vec<u8>| s@),
                (src.consumed() - start) as nat,
                parse_texts(src.available(), (count - i) as nat),
            ),
        decreases count - i,
    {
        let ghost avail_i = src.available();
        let ghost items_i = out@.map_values(|s: Vec<u8>| s@);
        let ghost used_i = (src.consumed() - start) as nat;
        let len = match src.read_uvarint() {
            Ok(l) => l,
            Err(e) => {
                src.rewind(start);
                return Err(e);
            },
        };
        if len > usize::MAX as u64 {
            src.rewind(start);
            return Err(Error::Driver(DriverError::Overflow));
        }
        let n = len as usize;
        let item = match src.read_bytes(n) {
            Ok(b) => b,
            Err(io) => {
                proof {
                    crate::varint::lemma_parse_length_bounds(avail_i, 10);
                }
                src.rewind(start);
                return Err(Error::Io(io));
            },
        };
        proof {
            crate::varint::lemma_parse_length_bounds(avail_i, 10);
            let length = (parse_uvarint(avail_i)->Value_length) as int;
            assert(src.available() =~= avail_i.skip(length + n));
            assert(item@ =~= avail_i.subrange(length, length + n));
            assert(parse_texts(avail_i, (count - i) as nat) == text_extend(
                seq![avail_i.subrange(length, length + n)],
                (length + n) as nat,
                parse_texts(avail_i.skip(length + n), (count - i - 1) as nat),
            ));
            lemma_text_extend_assoc(
                items_i,
                used_i,
                seq![item@],
                (length + n) as nat,
                parse_texts(avail_i.skip(length + n), (count - i - 1) as nat),
            );
        }
        out.push(item);
        i = i + 1;
        proof {
            assert(out@.map_values(|s: Vec<u8>| s@) =~= items_i + seq![item@]);
        }
    }
    proof {
        match parse_texts(src.available(), 0) {
            TextParse::Done { items, used } => {
                assert(out@.map_values(|s: Vec<u8>| s@) + items =~= out@.map_values(
                    |s: Vec<u8>| s@,
                ));
            },
            _ => {},
        }
    }
    Ok(out)
}

/// A complete run of `count` strings holds exactly `count` items.
pub proof fn lemma_parse_texts_count(avail: Seq<u8>, count: nat)
    ensures
        parse_texts(avail, count) matches TextParse::Done { items, .. } ==> items.len() == count,
    decreases count,
{
    if count > 0 {
        match parse_uvarint(avail) {
            VarintOutcome::Value { value, length } => {
                if value <= usize::MAX && avail.len() >= length + value {
                    lemma_parse_texts_count(
                        avail.skip((length + value) as int),
                        (count - 1) as nat,
                    );
                }
            },
            _ => {},
        }
    }
}

// ----- the column buffer -----

/// The decoded result: a fixed number of homogeneous values, immutable once
/// constructed, shared by reference counting. Floating-point columns store
/// the raw little-endian bit pattern of each element; temporal columns store
/// the raw day or second count together with the timezone it is to be
/// interpreted under.
#[derive(Debug)]
pub enum ColumnData {
    UInt8(Vec<u8>),
    UInt16(Vec<u16>),
    UInt32(Vec<u32>),
    UInt64(Vec<u64>),
    Int8(Vec<i8>),
    Int16(Vec<i16>),
    Int32(Vec<i32>),
    Int64(Vec<i64>),
    Float32(Vec<u32>),
    Float64(Vec<u64>),
    Text(Vec<Vec<u8>>),
    Date(Vec<u16>, Timezone),
    DateTime(Vec<u32>, Timezone),
}

impl ColumnData {
    /// How many elements the buffer holds.
    pub open spec fn spec_len(self) -> nat {
        match self {
            ColumnData::UInt8(v) => v@.len(),
            ColumnData::UInt16(v) => v@.len(),
            ColumnData::UInt32(v) => v@.len(),
            ColumnData::UInt64(v) => v@.len(),
            ColumnData::Int8(v) => v@.len(),
            ColumnData::Int16(v) => v@.len(),
            ColumnData::Int32(v) => v@.len(),
            ColumnData::Int64(v) => v@.len(),
            ColumnData::Float32(v) => v@.len(),
            ColumnData::Float64(v) => v@.len(),
            ColumnData::Text(v) => v@.len(),
            ColumnData::Date(v, _) => v@.len(),
            ColumnData::DateTime(v, _) => v@.len(),
        }
    }

    pub fn len(&self) -> (n: usize)
        ensures
            n == self.spec_len(),
    {
        match self {
            ColumnData::UInt8(v) => v.len(),
            ColumnData::UInt16(v) => v.len(),
            ColumnData::UInt32(v) => v.len(),
            ColumnData::UInt64(v) => v.len(),
            ColumnData::Int8(v) => v.len(),
            ColumnData::Int16(v) => v.len(),
            ColumnData::Int32(v) => v.len(),
            ColumnData::Int64(v) => v.len(),
            ColumnData::Float32(v) => v.len(),
            ColumnData::Float64(v) => v.len(),
            ColumnData::Text(v) => v.len(),
            ColumnData::Date(v, _) => v.len(),
            ColumnData::DateTime(v, _) => v.len(),
        }
    }

    /// The raw stored integers of a temporal column, timezone-free.
    pub open spec fn temporal_raws(self) -> Seq<int> {
        match self {
            ColumnData::Date(v, _) => v@.map_values(|x: u16| x as int),
            ColumnData::DateTime(v, _) => v@.map_values(|x: u32| x as int),
            _ => Seq::empty(),
        }
    }
}

// ----- dispatch -----

/// Bytes per element of a fixed-width wire type (text is not fixed-width).
pub open spec fn scalar_width(t: WireType) -> nat {
    match t {
        WireType::UInt8 => 1,
        WireType::Int8 => 1,
        WireType::UInt16 => 2,
        WireType::Int16 => 2,
        WireType::Date => 2,
        WireType::UInt32 => 4,
        WireType::Int32 => 4,
        WireType::Float32 => 4,
        WireType::DateTime => 4,
        WireType::UInt64 => 8,
        WireType::Int64 => 8,
        WireType::Float64 => 8,
        WireType::Text => 0,
    }
}

/// Whether the bytes available suffice for a column of type `t` with
/// `count` elements, and how many of them the column occupies.
pub enum ColumnOutcome {
    Decodes { used: nat },
    Short,
    Malformed,
}

pub open spec fn column_outcome(t: WireType, avail: Seq<u8>, count: nat) -> ColumnOutcome {
    if t is Text {
        match parse_texts(avail, count) {
            TextParse::Done { used, .. } => ColumnOutcome::Decodes { used },
            TextParse::Short => ColumnOutcome::Short,
            TextParse::Malformed => ColumnOutcome::Malformed,
        }
    } else if avail.len() >= count * scalar_width(t) {
        ColumnOutcome::Decodes { used: count * scalar_width(t) }
    } else {
        ColumnOutcome::Short
    }
}

/// What a buffer of type `t` decoded from the front of `avail` holds.
pub open spec fn column_decodes_to(
    col: ColumnData,
    t: WireType,
    avail: Seq<u8>,
    count: nat,
    tz: Timezone,
) -> bool {
    match t {
        WireType::UInt8 => col matches ColumnData::UInt8(v) && v@ == scalars_of::<u8>(
            avail,
            count,
        ),
        WireType::UInt16 => col matches ColumnData::UInt16(v) && v@ == scalars_of::<u16>(
            avail,
            count,
        ),
        WireType::UInt32 => col matches ColumnData::UInt32(v) && v@ == scalars_of::<u32>(
            avail,
            count,
        ),
        WireType::UInt64 => col matches ColumnData::UInt64(v) && v@ == scalars_of::<u64>(
            avail,
            count,
        ),
        WireType::Int8 => col matches ColumnData::Int8(v) && v@ == scalars_of::<i8>(avail, count),
        WireType::Int16 => col matches ColumnData::Int16(v) && v@ == scalars_of::<i16>(
            avail,
            count,
        ),
        WireType::Int32 => col matches ColumnData::Int32(v) && v@ == scalars_of::<i32>(
            avail,
            count,
        ),
        WireType::Int64 => col matches ColumnData::Int64(v) && v@ == scalars_of::<i64>(
            avail,
            count,
        ),
        WireType::Float32 => col matches ColumnData::Float32(v) && v@ == scalars_of::<u32>(
            avail,
            count,
        ),
        WireType::Float64 => col matches ColumnData::Float64(v) && v@ == scalars_of::<u64>(
            avail,
            count,
        ),
        WireType::Text => col matches ColumnData::Text(v) && (parse_texts(avail, count)
            matches TextParse::Done { items, .. } && v@.map_values(|s: Vec<u8>| s@) == items),
        WireType::Date => col matches ColumnData::Date(v, z) && v@ == scalars_of::<u16>(
            avail,
            count,
        ) && z == tz,
        WireType::DateTime => col matches ColumnData::DateTime(v, z) && v@ == scalars_of::<u32>(
            avail,
            count,
        ) && z == tz,
    }
}

/// The exact diagnostic for a type identifier outside the recognized set.
pub open spec fn unsupported_text(name: Seq<char>) -> Seq<char> {
    "Unsupported column type \""@ + name + "\"."@
}

impl ColumnData {
    /// Decode one column: match `name` against the registry, read
    /// exactly the bytes a column of `size` elements needs, and return the
    /// buffer. An unrecognized name fails with the exact diagnostic; a
    /// source shortfall or a bad length prefix fails without consuming
    /// anything, so the same decode can be retried.
    pub fn load_data(reader: &mut ByteSource, name: &str, size: usize, tz: Timezone) -> (r:
        Result<Arc<ColumnData>, Error>)
        requires
            old(reader).wf(),
        ensures
            final(reader).wf(),
            final(reader).total_bytes() == old(reader).total_bytes(),
            final(reader).is_open() == old(reader).is_open(),
            match wire_type_of(name@) {
                None => {
                    &&& r matches Err(e)
                    &&& e matches Error::Driver(d)
                    &&& d matches DriverError::UnsupportedType { message }
                    &&& message@ == unsupported_text(name@)
                    &&& final(reader).consumed() == old(reader).consumed()
                },
                Some(t) => match column_outcome(t, old(reader).available(), size as nat) {
                    ColumnOutcome::Decodes { used } => {
                        &&& r matches Ok(col)
                        &&& column_decodes_to(*col, t, old(reader).available(), size as nat, tz)
                        &&& col.spec_len() == size
                        &&& final(reader).consumed() == old(reader).consumed() + used
                    },
                    ColumnOutcome::Short => {
                        &&& r matches Err(e)
                        &&& e matches Error::Io(io)
                        &&& io.is_shortfall(old(reader).is_open())
                        &&& final(reader).consumed() == old(reader).consumed()
                    },
                    ColumnOutcome::Malformed => {
                        &&& r matches Err(e)
                        &&& e == Error::Driver(DriverError::Overflow)
                        &&& final(reader).consumed() == old(reader).consumed()
                    },
                },
            },
    {
        let t = match parse_wire_type(name) {
            Some(t) => t,
            None => {
                let mut message = "Unsupported column type \"".to_owned();
                message.append(name);
                message.append("\".");
                return Err(Error::Driver(DriverError::UnsupportedType { message }));
            },
        };
        match t {
            WireType::UInt8 => match load_scalars::<u8>(reader, size) {
                Ok(v) => Ok(Arc::new(ColumnData::UInt8(v))),
                Err(e) => Err(Error::Io(e)),
            },
            WireType::UInt16 => match load_scalars::<u16>(reader, size) {
                Ok(v) => Ok(Arc::new(ColumnData::UInt16(v))),
                Err(e) => Err(Error::Io(e)),
            },
            WireType::UInt32 => match load_scalars::<u32>(reader, size) {
                Ok(v) => Ok(Arc::new(ColumnData::UInt32(v))),
                Err(e) => Err(Error::Io(e)),
            },
            WireType::UInt64 => match load_scalars::<u64>(reader, size) {
                Ok(v) => Ok(Arc::new(ColumnData::UInt64(v))),
                Err(e) => Err(Error::Io(e)),
            },
            WireType::Int8 => match load_scalars::<i8>(reader, size) {
                Ok(v) => Ok(Arc::new(ColumnData::Int8(v))),
                Err(e) => Err(Error::Io(e)),
            },
            WireType::Int16 => match load_scalars::<i16>(reader, size) {
                Ok(v) => Ok(Arc::new(ColumnData::Int16(v))),
                Err(e) => Err(Error::Io(e)),
            },
            WireType::Int32 => match load_scalars::<i32>(reader, size) {
                Ok(v) => Ok(Arc::new(ColumnData::Int32(v))),
                Err(e) => Err(Error::Io(e)),
            },
            WireType::Int64 => match load_scalars::<i64>(reader, size) {
                Ok(v) => Ok(Arc::new(ColumnData::Int64(v))),
                Err(e) => Err(Error::Io(e)),
            },
            WireType::Float32 => match load_scalars::<u32>(reader, size) {
                Ok(v) => Ok(Arc::new(ColumnData::Float32(v))),
                Err(e) => Err(Error::Io(e)),
            },
            WireType::Float64 => match load_scalars::<u64>(reader, size) {
                Ok(v) => Ok(Arc::new(ColumnData::Float64(v))),
                Err(e) => Err(Error::Io(e)),
            },
            WireType::Text => match load_texts(reader, size) {
                Ok(v) => {
                    proof {
                        lemma_parse_texts_count(old(reader).available(), size as nat);
                    }
                    Ok(Arc::new(ColumnData::Text(v)))
                },
                Err(e) => Err(e),
            },
            WireType::Date => match load_scalars::<u16>(reader, size) {
                Ok(v) => Ok(Arc::new(ColumnData::Date(v, tz))),
                Err(e) => Err(Error::Io(e)),
            },
            WireType::DateTime => match load_scalars::<u32>(reader, size) {
                Ok(v) => Ok(Arc::new(ColumnData::DateTime(v, tz))),
                Err(e) => Err(Error::Io(e)),
            },
        }
    }
}

// ----- laws -----

/// A zero-element column is decodable from any source state and consumes
/// nothing: `count == 0` never reads.
pub proof fn lemma_zero_count_consumes_nothing(t: WireType, avail: Seq<u8>)
    ensures
        column_outcome(t, avail, 0) == (ColumnOutcome::Decodes { used: 0 as nat }),
{
}

/// The timezone never changes what a temporal column stores: two buffers
/// decoded from the same bytes under two timezones hold the same raw
/// integers. Interpretation is a pure function applied to a raw value
/// afterwards (`Timezone::spec_date_interpretation`,
/// `Timezone::spec_datetime_interpretation`).
pub proof fn lemma_temporal_raws_independent_of_timezone(
    col1: ColumnData,
    col2: ColumnData,
    t: WireType,
    avail: Seq<u8>,
    count: nat,
    tz1: Timezone,
    tz2: Timezone,
)
    requires
        t is Date || t is DateTime,
        column_decodes_to(col1, t, avail, count, tz1),
        column_decodes_to(col2, t, avail, count, tz2),
    ensures
        col1.temporal_raws() == col2.temporal_raws(),
{
}

} // verus!
