use clickhouse_decode::errors::{
    ConnectionError, DriverError, Error, FromSqlError, IoError, IoErrorKind, ServerError, UrlError,
};
use clickhouse_decode::suspend::{poll_result, Suspension};

#[test]
fn timeout_surfaces_recorded_error_over_generic_timeout() {
    let recorded = Error::Driver(DriverError::UnexpectedPacket);
    let surfaced = Error::from_timeout(Some(recorded));
    assert!(matches!(surfaced, Error::Driver(DriverError::UnexpectedPacket)));
}

#[test]
fn timeout_without_recorded_error_is_generic_driver_timeout() {
    let surfaced = Error::from_timeout(None);
    assert!(matches!(surfaced, Error::Driver(DriverError::Timeout)));
    assert_eq!(surfaced.text(), "timed out");
}

#[test]
fn would_block_becomes_pending_everything_else_fails() {
    let blocked = Error::Io(IoError::shortfall(true));
    assert!(blocked.is_would_block());
    assert!(matches!(blocked.into_suspension::<u32>(), Suspension::Pending));

    let eof = Error::Io(IoError::shortfall(false));
    assert!(!eof.is_would_block());
    match eof.into_suspension::<u32>() {
        Suspension::Failed(Error::Io(e)) => assert_eq!(e.kind, IoErrorKind::UnexpectedEof),
        other => panic!("wrong suspension: {:?}", other),
    }

    let driver = Error::Driver(DriverError::UnexpectedPacket);
    assert!(matches!(
        driver.into_suspension::<u32>(),
        Suspension::Failed(Error::Driver(DriverError::UnexpectedPacket))
    ));
}

#[test]
fn poll_result_passes_values_through() {
    match poll_result::<u8>(Ok(7)) {
        Suspension::Ready(v) => assert_eq!(v, 7),
        other => panic!("wrong suspension: {:?}", other),
    }
    assert!(matches!(
        poll_result::<u8>(Err(Error::Io(IoError::shortfall(true)))),
        Suspension::Pending
    ));
}

#[test]
fn server_error_fields_are_retained_verbatim() {
    let server = ServerError {
        code: 81,
        name: "DB::Exception".to_string(),
        message: "Database nope doesn't exist".to_string(),
        stack_trace: "0. main".to_string(),
    };
    let err = Error::from(server.clone());
    match &err {
        Error::Server(s) => {
            assert_eq!(s.code, 81);
            assert_eq!(s.name, "DB::Exception");
            assert_eq!(s.message, "Database nope doesn't exist");
            assert_eq!(s.stack_trace, "0. main");
        },
        other => panic!("wrong error: {:?}", other),
    }
    assert_eq!(err.text(), "DB::Exception: Database nope doesn't exist");
}

#[test]
fn url_parse_error_is_carried_verbatim() {
    let parse_err = url::Url::parse("http://[invalid").unwrap_err();
    let err = Error::from(parse_err);
    match &err {
        Error::Url(UrlError::Parse(inner)) => assert_eq!(*inner, parse_err),
        other => panic!("wrong error: {:?}", other),
    }
    assert_eq!(err.text(), "URL parse error");
}

#[test]
fn url_error_texts() {
    let err = Error::from(UrlError::InvalidParamValue {
        param: "compression".to_string(),
        value: "zip".to_string(),
    });
    assert_eq!(err.text(), "invalid \"compression\" parameter value: zip");
    let err = Error::from(UrlError::UnknownParameter { param: "nope".to_string() });
    assert_eq!(err.text(), "unknown parameter: nope");
    let err = Error::from(UrlError::UnsupportedScheme { scheme: "ftp".to_string() });
    assert_eq!(err.text(), "unsupported scheme: ftp");
    assert_eq!(Error::from(UrlError::Invalid).text(), "invalid URL");
}

#[test]
fn utf8_error_is_a_driver_fault() {
    let utf8_err = std::str::from_utf8(&[0x66, 0xFF]).unwrap_err();
    let err = Error::from(utf8_err);
    match &err {
        Error::Driver(DriverError::Utf8Error(inner)) => assert_eq!(inner.valid_up_to(), 1),
        other => panic!("wrong error: {:?}", other),
    }
    assert_eq!(err.text(), "invalid utf-8 sequence");
}

#[test]
fn from_utf8_string_error_is_other_with_description() {
    let from_utf8_err = String::from_utf8(vec![0xFF]).unwrap_err();
    let err = Error::from(from_utf8_err);
    match &err {
        Error::Other(message) => assert!(!message.is_empty()),
        other => panic!("wrong error: {:?}", other),
    }
}

#[test]
fn messages_become_other_errors() {
    let err = Error::from("something odd".to_string());
    assert!(matches!(&err, Error::Other(_)));
    assert_eq!(err.text(), "something odd");
    let err = Error::from("borrowed message");
    assert_eq!(err.text(), "borrowed message");
}

#[test]
fn connection_errors_classify_and_describe() {
    let err = Error::from(ConnectionError::TlsHostNotProvided);
    assert!(matches!(&err, Error::Connection(ConnectionError::TlsHostNotProvided)));
    assert_eq!(err.text(), "TLS host not provided");
    let err = Error::from(ConnectionError::TlsError { message: "handshake failed".to_string() });
    assert_eq!(err.text(), "handshake failed");
    let err = Error::from(ConnectionError::IoError(IoError::shortfall(false)));
    assert_eq!(err.text(), "unexpected end of byte source");
}

#[test]
fn from_sql_errors_describe_the_conversion() {
    let err = Error::FromSql(FromSqlError::InvalidType {
        src: "String".to_string(),
        dst: "u32".to_string(),
    });
    assert_eq!(err.text(), "cannot convert String to u32");
    assert_eq!(Error::FromSql(FromSqlError::OutOfRange).text(), "value out of range");
    assert_eq!(
        Error::FromSql(FromSqlError::UnsupportedOperation).text(),
        "unsupported operation"
    );
}

#[test]
fn into_io_error_keeps_transport_faults_and_collapses_the_rest() {
    let io = Error::Io(IoError::shortfall(true)).into_io_error();
    assert_eq!(io.kind, IoErrorKind::WouldBlock);
    assert_eq!(io.message, "operation would block");

    let collapsed = Error::Driver(DriverError::Overflow).into_io_error();
    assert_eq!(collapsed.kind, IoErrorKind::Other);
    assert_eq!(collapsed.message, "varint overflows a 64-bit integer");
}

#[test]
fn driver_error_conversion_keeps_the_variant() {
    let err = Error::from(DriverError::UnknownPacket { packet: 42 });
    match &err {
        Error::Driver(DriverError::UnknownPacket { packet }) => assert_eq!(*packet, 42),
        other => panic!("wrong error: {:?}", other),
    }
}
