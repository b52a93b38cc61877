//! The unified error taxonomy of the client: driver/protocol faults,
//! transport faults, connection-setup faults, server-reported faults,
//! connection-URL faults and value-conversion faults, with conversions
//! from the lower-level failures that produce them.

use vstd::prelude::*;
use vstd::string::StringExecFns;

verus! {

// ----- declarations of outside types carried through the taxonomy -----

/// `url::ParseError` is carried verbatim inside `UrlError::Parse` so that a
/// caller sees exactly what the URL parser reported.
#[verifier::external_type_specification]
#[verifier::external_body]
pub struct ExUrlParseError(url::ParseError);

/// `core::str::Utf8Error` is carried verbatim inside `DriverError::Utf8Error`.
#[verifier::external_type_specification]
#[verifier::external_body]
pub struct ExUtf8Error(core::str::Utf8Error);

/// `std::string::FromUtf8Error` appears only as a conversion source.
#[verifier::external_type_specification]
#[verifier::external_body]
pub struct ExFromUtf8Error(std::string::FromUtf8Error);

// ----- the byte-source failure model -----

/// The kind of a byte-source failure. `WouldBlock` is the non-fatal kind: no
/// data is available right now, the same read may succeed later.
#[derive(Clone, Copy, PartialEq, Eq, Structural, Debug)]
pub enum IoErrorKind {
    WouldBlock,
    UnexpectedEof,
    Other,
}

/// A byte-source failure: a kind plus a human-readable description.
#[derive(Debug)]
pub struct IoError {
    pub kind: IoErrorKind,
    pub message: String,
}

impl IoError {
    /// The kind a source reports when it runs out of bytes: a still-open
    /// source may get more later, a closed one never will.
    pub open spec fn spec_shortfall_kind(open: bool) -> IoErrorKind {
        if open {
            IoErrorKind::WouldBlock
        } else {
            IoErrorKind::UnexpectedEof
        }
    }

    pub open spec fn spec_shortfall_text(open: bool) -> Seq<char> {
        if open {
            "operation would block"@
        } else {
            "unexpected end of byte source"@
        }
    }

    /// The failure a source emits when asked for more bytes than it holds.
    pub open spec fn is_shortfall(self, open: bool) -> bool {
        &&& self.kind == IoError::spec_shortfall_kind(open)
        &&& self.message@ == IoError::spec_shortfall_text(open)
    }

    pub fn shortfall(open: bool) -> (e: IoError)
        ensures
            e.is_shortfall(open),
    {
        if open {
            IoError { kind: IoErrorKind::WouldBlock, message: "operation would block".to_owned() }
        } else {
            IoError {
                kind: IoErrorKind::UnexpectedEof,
                message: "unexpected end of byte source".to_owned(),
            }
        }
    }
}

// ----- the taxonomy -----

/// A structured failure reported by the remote database server; every field
/// is retained verbatim for display.
#[derive(Debug, Clone)]
pub struct ServerError {
    pub code: u32,
    pub name: String,
    pub message: String,
    pub stack_trace: String,
}

/// Connection-setup failures.
#[derive(Debug)]
pub enum ConnectionError {
    /// TLS was requested but no host name was configured to verify against.
    TlsHostNotProvided,
    /// A transport-level fault during connection setup.
    IoError(IoError),
    /// A fault reported by the TLS implementation itself, carried as its
    /// textual description.
    TlsError { message: String },
}

/// Connection-URL failures.
#[derive(Debug)]
pub enum UrlError {
    Invalid,
    InvalidParamValue { param: String, value: String },
    Parse(url::ParseError),
    UnknownParameter { param: String },
    UnsupportedScheme { scheme: String },
}

/// Protocol and client-logic failures.
#[derive(Debug)]
pub enum DriverError {
    /// A variable-length integer does not fit in 64 bits.
    Overflow,
    UnknownPacket { packet: u64 },
    UnexpectedPacket,
    /// A deadline elapsed with no more specific failure recorded.
    Timeout,
    Utf8Error(core::str::Utf8Error),
    /// A wire type identifier outside the recognized set; `message` holds the
    /// exact diagnostic, with the offending identifier embedded verbatim.
    UnsupportedType { message: String },
}

/// Value-level conversion failures.
#[derive(Debug)]
pub enum FromSqlError {
    InvalidType { src: String, dst: String },
    OutOfRange,
    UnsupportedOperation,
}

/// This type enumerates library errors. Exactly one tag is active per
/// instance; it is the sole failure channel of the decode entry point.
#[derive(Debug)]
pub enum Error {
    Driver(DriverError),
    Io(IoError),
    Connection(ConnectionError),
    Other(String),
    Server(ServerError),
    Url(UrlError),
    FromSql(FromSqlError),
}

// ----- textual descriptions -----

impl DriverError {
    pub open spec fn spec_text(self) -> Seq<char> {
        match self {
            DriverError::Overflow => "varint overflows a 64-bit integer"@,
            DriverError::UnknownPacket { .. } => "unknown packet"@,
            DriverError::UnexpectedPacket => "unexpected packet"@,
            DriverError::Timeout => "timed out"@,
            DriverError::Utf8Error(_) => "invalid utf-8 sequence"@,
            DriverError::UnsupportedType { message } => message@,
        }
    }

    pub fn text(&self) -> (t: String)
        ensures
            t@ == self.spec_text(),
    {
        match self {
            DriverError::Overflow => "varint overflows a 64-bit integer".to_owned(),
            DriverError::UnknownPacket { .. } => "unknown packet".to_owned(),
            DriverError::UnexpectedPacket => "unexpected packet".to_owned(),
            DriverError::Timeout => "timed out".to_owned(),
            DriverError::Utf8Error(_) => "invalid utf-8 sequence".to_owned(),
            DriverError::UnsupportedType { message } => message.clone(),
        }
    }
}

impl ConnectionError {
    pub open spec fn spec_text(self) -> Seq<char> {
        match self {
            ConnectionError::TlsHostNotProvided => "TLS host not provided"@,
            ConnectionError::IoError(e) => e.message@,
            ConnectionError::TlsError { message } => message@,
        }
    }

    pub fn text(&self) -> (t: String)
        ensures
            t@ == self.spec_text(),
    {
        match self {
            ConnectionError::TlsHostNotProvided => "TLS host not provided".to_owned(),
            ConnectionError::IoError(e) => e.message.clone(),
            ConnectionError::TlsError { message } => message.clone(),
        }
    }
}

impl UrlError {
    pub open spec fn spec_text(self) -> Seq<char> {
        match self {
            UrlError::Invalid => "invalid URL"@,
            UrlError::InvalidParamValue { param, value } => "invalid \""@ + param@
                + "\" parameter value: "@ + value@,
            UrlError::Parse(_) => "URL parse error"@,
            UrlError::UnknownParameter { param } => "unknown parameter: "@ + param@,
            UrlError::UnsupportedScheme { scheme } => "unsupported scheme: "@ + scheme@,
        }
    }

    pub fn text(&self) -> (t: String)
        ensures
            t@ == self.spec_text(),
    {
        match self {
            UrlError::Invalid => "invalid URL".to_owned(),
            UrlError::InvalidParamValue { param, value } => {
                let mut t = "invalid \"".to_owned();
                t.append(param.as_str());
                t.append("\" parameter value: ");
                t.append(value.as_str());
                t
            },
            UrlError::Parse(_) => "URL parse error".to_owned(),
            UrlError::UnknownParameter { param } => {
                let mut t = "unknown parameter: ".to_owned();
                t.append(param.as_str());
                t
            },
            UrlError::UnsupportedScheme { scheme } => {
                let mut t = "unsupported scheme: ".to_owned();
                t.append(scheme.as_str());
                t
            },
        }
    }
}

impl FromSqlError {
    pub open spec fn spec_text(self) -> Seq<char> {
        match self {
            FromSqlError::InvalidType { src, dst } => "cannot convert "@ + src@ + " to "@ + dst@,
            FromSqlError::OutOfRange => "value out of range"@,
            FromSqlError::UnsupportedOperation => "unsupported operation"@,
        }
    }

    pub fn text(&self) -> (t: String)
        ensures
            t@ == self.spec_text(),
    {
        match self {
            FromSqlError::InvalidType { src, dst } => {
                let mut t = "cannot convert ".to_owned();
                t.append(src.as_str());
                t.append(" to ");
                t.append(dst.as_str());
                t
            },
            FromSqlError::OutOfRange => "value out of range".to_owned(),
            FromSqlError::UnsupportedOperation => "unsupported operation".to_owned(),
        }
    }
}

impl ServerError {
    pub open spec fn spec_text(self) -> Seq<char> {
        self.name@ + ": "@ + self.message@
    }

    pub fn text(&self) -> (t: String)
        ensures
            t@ == self.spec_text(),
    {
        let mut t = self.name.clone();
        t.append(": ");
        t.append(self.message.as_str());
        t
    }
}

impl Error {
    /// The textual description a consumer sees when classification detail is
    /// collapsed into a single string.
    pub open spec fn spec_text(self) -> Seq<char> {
        match self {
            Error::Driver(d) => d.spec_text(),
            Error::Io(e) => e.message@,
            Error::Connection(c) => c.spec_text(),
            Error::Other(s) => s@,
            Error::Server(s) => s.spec_text(),
            Error::Url(u) => u.spec_text(),
            Error::FromSql(f) => f.spec_text(),
        }
    }

    pub fn text(&self) -> (t: String)
        ensures
            t@ == self.spec_text(),
    {
        match self {
            Error::Driver(d) => d.text(),
            Error::Io(e) => e.message.clone(),
            Error::Connection(c) => c.text(),
            Error::Other(s) => s.clone(),
            Error::Server(s) => s.text(),
            Error::Url(u) => u.text(),
            Error::FromSql(f) => f.text(),
        }
    }

    /// Compatibility conversion for consumers that only understand a
    /// transport-style failure: a transport fault passes through unchanged,
    /// anything else is collapsed into its textual description.
    pub fn into_io_error(self) -> (r: IoError)
        ensures
            self matches Error::Io(e) ==> r == e,
            !(self is Io) ==> r.kind == IoErrorKind::Other && r.message@ == self.spec_text(),
    {
        match self {
            Error::Io(e) => e,
            other => IoError { kind: IoErrorKind::Other, message: other.text() },
        }
    }
}

impl Error {
    /// The error surfaced when a deadline wrapping an operation elapses:
    /// the concrete error already recorded for the operation, if any, is
    /// surfaced in place of a generic timeout; a generic timeout is
    /// synthesized only when nothing more specific was recorded.
    pub fn from_timeout(recorded: Option<Error>) -> (r: Error)
        ensures
            recorded matches Some(e) ==> r == e,
            recorded is None ==> r == Error::Driver(DriverError::Timeout),
    {
        match recorded {
            Some(e) => e,
            None => Error::Driver(DriverError::Timeout),
        }
    }
}

// ----- conversions from lower-level failures -----

impl From<DriverError> for Error {
    fn from(err: DriverError) -> Self {
        Error::Driver(err)
    }
}

impl vstd::std_specs::convert::FromSpecImpl<DriverError> for Error {
    open spec fn obeys_from_spec() -> bool {
        true
    }

    open spec fn from_spec(err: DriverError) -> Self {
        Error::Driver(err)
    }
}

impl From<IoError> for Error {
    fn from(err: IoError) -> Self {
        Error::Io(err)
    }
}

impl vstd::std_specs::convert::FromSpecImpl<IoError> for Error {
    open spec fn obeys_from_spec() -> bool {
        true
    }

    open spec fn from_spec(err: IoError) -> Self {
        Error::Io(err)
    }
}

impl From<ServerError> for Error {
    fn from(err: ServerError) -> Self {
        Error::Server(err)
    }
}

impl vstd::std_specs::convert::FromSpecImpl<ServerError> for Error {
    open spec fn obeys_from_spec() -> bool {
        true
    }

    open spec fn from_spec(err: ServerError) -> Self {
        Error::Server(err)
    }
}

impl From<UrlError> for Error {
    fn from(err: UrlError) -> Self {
        Error::Url(err)
    }
}

impl vstd::std_specs::convert::FromSpecImpl<UrlError> for Error {
    open spec fn obeys_from_spec() -> bool {
        true
    }

    open spec fn from_spec(err: UrlError) -> Self {
        Error::Url(err)
    }
}

impl From<ConnectionError> for Error {
    fn from(err: ConnectionError) -> Self {
        Error::Connection(err)
    }
}

impl vstd::std_specs::convert::FromSpecImpl<ConnectionError> for Error {
    open spec fn obeys_from_spec() -> bool {
        true
    }

    open spec fn from_spec(err: ConnectionError) -> Self {
        Error::Connection(err)
    }
}

impl From<String> for Error {
    fn from(err: String) -> Self {
        Error::Other(err)
    }
}

impl vstd::std_specs::convert::FromSpecImpl<String> for Error {
    open spec fn obeys_from_spec() -> bool {
        true
    }

    open spec fn from_spec(err: String) -> Self {
        Error::Other(err)
    }
}

impl From<&str> for Error {
    fn from(err: &str) -> Self {
        Error::Other(err.to_owned())
    }
}

// The payload is a fresh owned copy of the message, which no spec expression
// can name, so the conversion promises nothing.
impl vstd::std_specs::convert::FromSpecImpl<&str> for Error {
    open spec fn obeys_from_spec() -> bool {
        false
    }

    open spec fn from_spec(err: &str) -> Self {
        arbitrary()
    }
}

impl From<url::ParseError> for Error {
    fn from(err: url::ParseError) -> Self {
        Error::Url(UrlError::Parse(err))
    }
}

impl vstd::std_specs::convert::FromSpecImpl<url::ParseError> for Error {
    open spec fn obeys_from_spec() -> bool {
        true
    }

    open spec fn from_spec(err: url::ParseError) -> Self {
        Error::Url(UrlError::Parse(err))
    }
}

impl From<core::str::Utf8Error> for Error {
    fn from(err: core::str::Utf8Error) -> Self {
        Error::Driver(DriverError::Utf8Error(err))
    }
}

impl vstd::std_specs::convert::FromSpecImpl<core::str::Utf8Error> for Error {
    open spec fn obeys_from_spec() -> bool {
        true
    }

    open spec fn from_spec(err: core::str::Utf8Error) -> Self {
        Error::Driver(DriverError::Utf8Error(err))
    }
}

impl From<std::string::FromUtf8Error> for Error {
    fn from(err: std::string::FromUtf8Error) -> Self {
        Error::Other(err.to_string())
    }
}

// The textual payload of this conversion comes from `Display`, which no spec
// function can state, so the conversion promises nothing (`obeys_from_spec`
// is false and `from_spec` is left arbitrary).
impl vstd::std_specs::convert::FromSpecImpl<std::string::FromUtf8Error> for Error {
    open spec fn obeys_from_spec() -> bool {
        false
    }

    open spec fn from_spec(err: std::string::FromUtf8Error) -> Self {
        arbitrary()
    }
}

} // verus!
