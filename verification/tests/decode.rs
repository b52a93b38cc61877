use clickhouse_decode::column::{ColumnData, WireType};
use clickhouse_decode::column::parse_wire_type;
use clickhouse_decode::errors::{DriverError, Error, IoErrorKind};
use clickhouse_decode::source::ByteSource;
use clickhouse_decode::suspend::{poll_load_data, Suspension};
use clickhouse_decode::timezone::Timezone;

fn closed(bytes: Vec<u8>) -> ByteSource {
    ByteSource::new(bytes, false)
}

fn open(bytes: Vec<u8>) -> ByteSource {
    ByteSource::new(bytes, true)
}

#[test]
fn uint8_three_elements() {
    let mut src = closed(vec![1, 2, 3]);
    let col = ColumnData::load_data(&mut src, "UInt8", 3, Timezone::utc()).unwrap();
    match &*col {
        ColumnData::UInt8(v) => assert_eq!(v, &vec![1u8, 2, 3]),
        other => panic!("wrong variant: {:?}", other),
    }
    assert_eq!(col.len(), 3);
    assert_eq!(src.position(), 3);
}

#[test]
fn int16_minus_one() {
    let mut src = closed(vec![0xFF, 0xFF]);
    let col = ColumnData::load_data(&mut src, "Int16", 1, Timezone::utc()).unwrap();
    match &*col {
        ColumnData::Int16(v) => assert_eq!(v, &vec![-1i16]),
        other => panic!("wrong variant: {:?}", other),
    }
}

#[test]
fn strings_ab_then_cde() {
    let mut src = closed(vec![2, b'a', b'b', 3, b'c', b'd', b'e']);
    let col = ColumnData::load_data(&mut src, "String", 2, Timezone::utc()).unwrap();
    match &*col {
        ColumnData::Text(v) => {
            assert_eq!(v.len(), 2);
            assert_eq!(v[0], b"ab".to_vec());
            assert_eq!(v[1], b"cde".to_vec());
        },
        other => panic!("wrong variant: {:?}", other),
    }
    assert_eq!(src.position(), 7);
}

#[test]
fn unsupported_type_exact_message() {
    let mut src = closed(vec![1, 2, 3]);
    let err = ColumnData::load_data(&mut src, "Foo", 2, Timezone::utc()).unwrap_err();
    match &err {
        Error::Driver(DriverError::UnsupportedType { message }) => {
            assert_eq!(message, "Unsupported column type \"Foo\".");
        },
        other => panic!("wrong error: {:?}", other),
    }
    assert_eq!(err.text(), "Unsupported column type \"Foo\".");
    assert_eq!(src.position(), 0);
}

#[test]
fn date_raw_is_timezone_free_interpretation_is_not() {
    let zone_a = Timezone::from_offset(3600);
    let zone_b = Timezone::from_offset(0);

    let mut src_a = closed(vec![0, 0]);
    let col_a = ColumnData::load_data(&mut src_a, "Date", 1, zone_a).unwrap();
    let mut src_b = closed(vec![0, 0]);
    let col_b = ColumnData::load_data(&mut src_b, "Date", 1, zone_b).unwrap();

    let (raw_a, tz_a) = match &*col_a {
        ColumnData::Date(v, z) => (v[0], *z),
        other => panic!("wrong variant: {:?}", other),
    };
    let (raw_b, tz_b) = match &*col_b {
        ColumnData::Date(v, z) => (v[0], *z),
        other => panic!("wrong variant: {:?}", other),
    };
    assert_eq!(raw_a, 0);
    assert_eq!(raw_b, 0);
    assert_ne!(tz_a.date_interpretation(raw_a), tz_b.date_interpretation(raw_b));
    assert_eq!(tz_a.date_interpretation(raw_a), 3600);
    assert_eq!(tz_b.date_interpretation(raw_b), 0);
}

#[test]
fn datetime_raw_is_timezone_free() {
    let bytes = vec![0x10, 0x20, 0x30, 0x40];
    let mut src_a = closed(bytes.clone());
    let col_a = ColumnData::load_data(&mut src_a, "DateTime", 1, Timezone::from_offset(-7200))
        .unwrap();
    let mut src_b = closed(bytes);
    let col_b = ColumnData::load_data(&mut src_b, "DateTime", 1, Timezone::utc()).unwrap();
    let (raw_a, tz_a) = match &*col_a {
        ColumnData::DateTime(v, z) => (v[0], *z),
        other => panic!("wrong variant: {:?}", other),
    };
    let (raw_b, tz_b) = match &*col_b {
        ColumnData::DateTime(v, z) => (v[0], *z),
        other => panic!("wrong variant: {:?}", other),
    };
    assert_eq!(raw_a, 0x40302010);
    assert_eq!(raw_b, 0x40302010);
    assert_eq!(tz_a.datetime_interpretation(raw_a), 0x40302010i64 - 7200);
    assert_eq!(tz_b.datetime_interpretation(raw_b), 0x40302010i64);
}

#[test]
fn would_block_then_retry_completes() {
    let mut src = open(vec![1, 2]);
    let err = ColumnData::load_data(&mut src, "UInt8", 3, Timezone::utc()).unwrap_err();
    match &err {
        Error::Io(e) => assert_eq!(e.kind, IoErrorKind::WouldBlock),
        other => panic!("wrong error: {:?}", other),
    }
    assert!(matches!(
        err.into_suspension::<()>(),
        Suspension::Pending
    ));
    // nothing was consumed, so the retry reads the same bytes plus the new one
    assert_eq!(src.position(), 0);
    src.feed(&[3]);
    let col = ColumnData::load_data(&mut src, "UInt8", 3, Timezone::utc()).unwrap();
    match &*col {
        ColumnData::UInt8(v) => assert_eq!(v, &vec![1u8, 2, 3]),
        other => panic!("wrong variant: {:?}", other),
    }
    assert_eq!(src.position(), 3);
}

#[test]
fn zero_count_reads_nothing() {
    let mut src = closed(vec![9, 9, 9]);
    for name in ["UInt64", "String", "Date"] {
        let col = ColumnData::load_data(&mut src, name, 0, Timezone::utc()).unwrap();
        assert_eq!(col.len(), 0);
        assert_eq!(src.position(), 0);
    }
}

#[test]
fn truncated_closed_source_is_failed_not_partial() {
    let mut src = closed(vec![1, 2, 3]);
    let err = ColumnData::load_data(&mut src, "UInt32", 1, Timezone::utc()).unwrap_err();
    match &err {
        Error::Io(e) => assert_eq!(e.kind, IoErrorKind::UnexpectedEof),
        other => panic!("wrong error: {:?}", other),
    }
    assert_eq!(src.position(), 0);
    assert!(matches!(
        err.into_suspension::<()>(),
        Suspension::Failed(Error::Io(_))
    ));
}

#[test]
fn truncated_string_run_consumes_nothing() {
    // first string complete, second's payload missing
    let mut src = closed(vec![1, b'x', 5, b'y']);
    let err = ColumnData::load_data(&mut src, "String", 2, Timezone::utc()).unwrap_err();
    match &err {
        Error::Io(e) => assert_eq!(e.kind, IoErrorKind::UnexpectedEof),
        other => panic!("wrong error: {:?}", other),
    }
    assert_eq!(src.position(), 0);
}

#[test]
fn poll_load_reports_pending_on_open_shortfall() {
    let mut src = open(vec![1]);
    let s = poll_load_data(&mut src, "UInt16", 1, Timezone::utc());
    assert!(matches!(s, Suspension::Pending));
    assert_eq!(src.position(), 0);
    src.feed(&[2]);
    let s = poll_load_data(&mut src, "UInt16", 1, Timezone::utc());
    match s {
        Suspension::Ready(col) => match &*col {
            ColumnData::UInt16(v) => assert_eq!(v, &vec![0x0201u16]),
            other => panic!("wrong variant: {:?}", other),
        },
        other => panic!("expected ready: {:?}", other),
    }
}

#[test]
fn length_prefix_overflow_is_driver_overflow() {
    // ten varint bytes encoding a value past 64 bits
    let mut bytes = vec![0xFF; 9];
    bytes.push(0x02);
    let mut src = closed(bytes);
    let err = ColumnData::load_data(&mut src, "String", 1, Timezone::utc()).unwrap_err();
    assert!(matches!(err, Error::Driver(DriverError::Overflow)));
    assert_eq!(src.position(), 0);
}

#[test]
fn multi_byte_length_prefix() {
    // 300 = 0xAC 0x02 in base-128
    let mut bytes = vec![0xAC, 0x02];
    bytes.extend(std::iter::repeat(7u8).take(300));
    let mut src = closed(bytes);
    let col = ColumnData::load_data(&mut src, "String", 1, Timezone::utc()).unwrap();
    match &*col {
        ColumnData::Text(v) => {
            assert_eq!(v[0].len(), 300);
            assert!(v[0].iter().all(|b| *b == 7));
        },
        other => panic!("wrong variant: {:?}", other),
    }
    assert_eq!(src.position(), 302);
}

#[test]
fn every_recognized_type_yields_requested_count() {
    let cases: [(&str, usize); 13] = [
        ("UInt8", 1),
        ("UInt16", 2),
        ("UInt32", 4),
        ("UInt64", 8),
        ("Int8", 1),
        ("Int16", 2),
        ("Int32", 4),
        ("Int64", 8),
        ("Float32", 4),
        ("Float64", 8),
        ("String", 1),
        ("Date", 2),
        ("DateTime", 4),
    ];
    for (name, width) in cases {
        for count in [0usize, 1, 3] {
            // for String, `width` bytes per element: a length prefix of
            // width - 1 and that many payload bytes
            let mut bytes = Vec::new();
            for _ in 0..count {
                if name == "String" {
                    bytes.push(0);
                } else {
                    bytes.extend(std::iter::repeat(0u8).take(width));
                }
            }
            let mut src = closed(bytes);
            let col = ColumnData::load_data(&mut src, name, count, Timezone::utc()).unwrap();
            assert_eq!(col.len(), count, "{} with count {}", name, count);
        }
    }
}

#[test]
fn uint32_wire_order_is_little_endian() {
    let mut src = closed(vec![0x78, 0x56, 0x34, 0x12]);
    let col = ColumnData::load_data(&mut src, "UInt32", 1, Timezone::utc()).unwrap();
    match &*col {
        ColumnData::UInt32(v) => assert_eq!(v[0], 0x12345678),
        other => panic!("wrong variant: {:?}", other),
    }
}

#[test]
fn float32_stores_raw_bits() {
    // 1.0f32 in little-endian wire order
    let mut src = closed(vec![0x00, 0x00, 0x80, 0x3F]);
    let col = ColumnData::load_data(&mut src, "Float32", 1, Timezone::utc()).unwrap();
    match &*col {
        ColumnData::Float32(v) => {
            assert_eq!(v[0], 0x3F800000);
            assert_eq!(f32::from_bits(v[0]), 1.0f32);
        },
        other => panic!("wrong variant: {:?}", other),
    }
}

#[test]
fn signed_columns_decode_negative_values() {
    let mut src = closed(vec![0x80]);
    let col = ColumnData::load_data(&mut src, "Int8", 1, Timezone::utc()).unwrap();
    match &*col {
        ColumnData::Int8(v) => assert_eq!(v[0], -128),
        other => panic!("wrong variant: {:?}", other),
    }
    let mut src = closed(vec![0xFE, 0xFF, 0xFF, 0xFF, 0xFF, 0xFF, 0xFF, 0xFF]);
    let col = ColumnData::load_data(&mut src, "Int64", 1, Timezone::utc()).unwrap();
    match &*col {
        ColumnData::Int64(v) => assert_eq!(v[0], -2),
        other => panic!("wrong variant: {:?}", other),
    }
}

#[test]
fn parse_wire_type_matches_registry() {
    assert_eq!(parse_wire_type("UInt8"), Some(WireType::UInt8));
    assert_eq!(parse_wire_type("String"), Some(WireType::Text));
    assert_eq!(parse_wire_type("DateTime"), Some(WireType::DateTime));
    assert_eq!(parse_wire_type("uint8"), None);
    assert_eq!(parse_wire_type(""), None);
}

#[test]
fn resolve_timezone_from_database() {
    let utc = Timezone::resolve("UTC", 0).unwrap();
    assert_eq!(utc.offset_seconds, 0);
    // POSIX-style inverted sign: Etc/GMT-1 is one hour east of UTC
    let east = Timezone::resolve("Etc/GMT-1", 0).unwrap();
    assert_eq!(east.offset_seconds, 3600);
    assert!(Timezone::resolve("Nowhere/Imaginary", 0).is_none());
}
