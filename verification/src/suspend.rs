//! The bridge between the error taxonomy and a cooperative, poll-driven
//! scheduler: a decode invoked by the scheduler either completes, or asks to
//! be retried later because no data is available right now, or fails for
//! good. "Retry later" is a scheduling event, not an error.

use crate::column::{column_outcome, column_decodes_to, unsupported_text, wire_type_of, ColumnData, ColumnOutcome};
use crate::errors::{DriverError, Error, IoErrorKind};
use crate::source::ByteSource;
use crate::timezone::Timezone;
use std::sync::Arc;
use vstd::prelude::*;

verus! {

/// The three-state result a poll-driven operation hands the scheduler.
#[derive(Debug)]
pub enum Suspension<T> {
    /// The operation completed with a value.
    Ready(T),
    /// Insufficient data is currently available; retry the same logical
    /// operation later. Not an error.
    Pending,
    /// The operation failed for good.
    Failed(Error),
}

impl Error {
    /// Whether this failure means only that a read would block: no data is
    /// available right now and the same read may succeed later.
    pub open spec fn spec_is_would_block(self) -> bool {
        self matches Error::Io(e) && e.kind == IoErrorKind::WouldBlock
    }

    pub fn is_would_block(&self) -> (r: bool)
        ensures
            r == self.spec_is_would_block(),
    {
        match self {
            Error::Io(e) => matches!(e.kind, IoErrorKind::WouldBlock),
            _ => false,
        }
    }

    /// Reinterpret a failure for the scheduler: a blocked read becomes
    /// `Pending`; every other failure stays a failure.
    pub fn into_suspension<T>(self) -> (s: Suspension<T>)
        ensures
            self.spec_is_would_block() ==> s is Pending,
            !self.spec_is_would_block() ==> s == Suspension::<T>::Failed(self),
    {
        if self.is_would_block() {
            Suspension::Pending
        } else {
            Suspension::Failed(self)
        }
    }
}

/// Adapt an operation's result to the scheduler's contract: success is
/// `Ready`, a blocked read is `Pending`, anything else is `Failed`.
pub fn poll_result<T>(r: Result<T, Error>) -> (s: Suspension<T>)
    ensures
        r matches Ok(v) ==> s == Suspension::Ready(v),
        r matches Err(e) ==> (if e.spec_is_would_block() {
            s is Pending
        } else {
            s == Suspension::<T>::Failed(e)
        }),
{
    match r {
        Ok(v) => Suspension::Ready(v),
        Err(e) => e.into_suspension(),
    }
}

/// Decode one column under the scheduler's contract. A short source never
/// yields a partial buffer: the result is `Ready` with a buffer of exactly
/// `size` elements, or `Pending` (source still open, nothing consumed), or
/// `Failed` — and on anything but `Ready` the source is left where it was,
/// so the scheduler may retry the identical logical read later without any
/// byte being re-consumed or skipped.
pub fn poll_load_data(reader: &mut ByteSource, name: &str, size: usize, tz: Timezone) -> (s:
    Suspension<Arc<ColumnData>>)
    requires
        old(reader).wf(),
    ensures
        final(reader).wf(),
        final(reader).total_bytes() == old(reader).total_bytes(),
        final(reader).is_open() == old(reader).is_open(),
        s matches Suspension::Ready(col) ==> (*col).spec_len() == size,
        !(s is Ready) ==> final(reader).consumed() == old(reader).consumed(),
        match wire_type_of(name@) {
            None => s matches Suspension::Failed(e) && e matches Error::Driver(d) && d
                matches DriverError::UnsupportedType { message } && message@ == unsupported_text(
                name@,
            ),
            Some(t) => match column_outcome(t, old(reader).available(), size as nat) {
                ColumnOutcome::Decodes { used } => {
                    &&& s matches Suspension::Ready(col)
                    &&& column_decodes_to(*col, t, old(reader).available(), size as nat, tz)
                    &&& final(reader).consumed() == old(reader).consumed() + used
                },
                ColumnOutcome::Short => {
                    if old(reader).is_open() {
                        s is Pending
                    } else {
                        s matches Suspension::Failed(e) && e matches Error::Io(io)
                            && io.is_shortfall(false)
                    }
                },
                ColumnOutcome::Malformed => s == Suspension::<Arc<ColumnData>>::Failed(
                    Error::Driver(DriverError::Overflow),
                ),
            },
        },
{
    poll_result(ColumnData::load_data(reader, name, size, tz))
}

} // verus!
