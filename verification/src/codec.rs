//! The stored form of a session and the conversion to and from it.

use crate::error::{result_view, Error, ErrorView};
use crate::record::{Id, Record, RecordView, Timestamp};
use vstd::prelude::*;

verus! {

/// What the backend keeps for one session: the whole session as a
/// MessagePack payload, and beside it the second at which it expires, so
/// that the backend can select by expiry without reading payloads.
#[derive(Clone, Debug, PartialEq, Eq)]
pub struct SessionRecord {
    pub data: Vec<u8>,
    pub expiry_date: i64,
}

/// A [`SessionRecord`] as mathematical values.
pub struct SessionRecordView {
    pub data: Seq<u8>,
    pub expiry_date: int,
}

impl View for SessionRecord {
    type V = SessionRecordView;

    open spec fn view(&self) -> SessionRecordView {
        SessionRecordView { data: self.data@, expiry_date: self.expiry_date as int }
    }
}

/// What `rmp_serde::to_vec` writes for a session, given as the triple of its
/// identifier, its data and its expiry instant: the payload, or the message
/// of the error that it or the making of the instant stopped with.
pub uninterp spec fn packed(session: RecordView) -> Result<Seq<u8>, Seq<char>>;

/// What `rmp_serde::from_slice` reads from `payload` as a
/// `tower_sessions_core::session::Record`: the session, or the message of the
/// error it stopped with.
pub uninterp spec fn unpacked(payload: Seq<u8>) -> Result<RecordView, Seq<char>>;

/// Serialises a session with `rmp_serde::to_vec`, as the triple of a
/// `tower_sessions_core::session::Id`, the data and a
/// `time::OffsetDateTime` in UTC, which is written as the array of three
/// that `tower_sessions_core::session::Record` is written as. The data is
/// walked in the order of its keys, so the outcome is a function of the
/// session, and the contract gives it its name. It also says when the call
/// is owed to succeed: `time` has a date for every instant of the years
/// -9999 to 9999, and the serialiser raises no error on such a triple.
#[verifier::external_body]
fn pack(session: &Record) -> (payload: Result<Vec<u8>, String>)
    ensures
        result_view(payload) == packed(session@),
        session.expiry_date.is_instant() ==> payload is Ok,
{
    let expiry_date = time::OffsetDateTime::from_unix_timestamp(session.expiry_date.seconds)
        .and_then(|second| second.replace_nanosecond(session.expiry_date.nanosecond))
        .map_err(|error| error.to_string())?;
    let id = tower_sessions_core::session::Id(session.id.0);
    rmp_serde::to_vec(&(id, &session.data, expiry_date)).map_err(|error| error.to_string())
}

/// Reads a payload with `rmp_serde::from_slice` as a
/// `tower_sessions_core::session::Record` and hands its three fields on, the
/// data in the order of its keys and the expiry as the instant's Unix second
/// and nanosecond. The contract only gives the outcome its name: it is a
/// function of the bytes.
#[verifier::external_body]
fn unpack(payload: &[u8]) -> (session: Result<Record, String>)
    ensures
        result_view(session) == unpacked(payload@),
{
    let record: tower_sessions_core::session::Record = rmp_serde::from_slice(payload)
        .map_err(|error| error.to_string())?;
    let seconds = record.expiry_date.unix_timestamp();
    let nanosecond = record.expiry_date.nanosecond();
    let data = record.data.into_iter().collect();
    Ok(Record { id: Id(record.id.0), data, expiry_date: Timestamp { seconds, nanosecond } })
}

/// The stored form made of a serialiser's outcome and an expiry second: the
/// payload with the second beside it, or the serialiser's failure as an
/// encoding error.
pub open spec fn sealed(packed: Result<Seq<u8>, Seq<char>>, expiry_date: int) -> Result<
    SessionRecordView,
    ErrorView,
> {
    match packed {
        Ok(data) => Ok(SessionRecordView { data, expiry_date }),
        Err(message) => Err(ErrorView::Encode(message)),
    }
}

/// What becomes of the stored form of `session` when its payload has been
/// read back: it stands if the reader got through and found the session's
/// identifier and expiry, and is an encoding error if not.
pub open spec fn confirmed(
    entry: SessionRecordView,
    session: RecordView,
    unpacked: Result<RecordView, Seq<char>>,
) -> Result<SessionRecordView, ErrorView> {
    match unpacked {
        Ok(read) => if read.id == session.id && read.expiry_date == session.expiry_date {
            Ok(entry)
        } else {
            Err(ErrorView::Encode("Session record does not read back"@))
        },
        Err(message) => Err(ErrorView::Encode(message)),
    }
}

/// The stored form of a session: its payload with the second of its expiry,
/// if the session can be written and what was written reads back.
pub open spec fn encoded(session: RecordView) -> Result<SessionRecordView, ErrorView> {
    match sealed(packed(session), session.expiry_date.seconds as int) {
        Ok(entry) => confirmed(entry, session, unpacked(entry.data)),
        Err(error) => Err(error),
    }
}

/// The session made of a reader's outcome: the session that was read, or
/// the reader's failure as a decoding error.
pub open spec fn opened(unpacked: Result<RecordView, Seq<char>>) -> Result<RecordView, ErrorView> {
    match unpacked {
        Ok(session) => Ok(session),
        Err(message) => Err(ErrorView::Decode(message)),
    }
}

/// The session that a stored form holds: what its payload reads as.
pub open spec fn decoded(entry: SessionRecordView) -> Result<RecordView, ErrorView> {
    opened(unpacked(entry.data))
}

impl SessionRecord {
    /// Puts a serialiser's outcome and an expiry second together.
    pub fn from_packed(packed: Result<Vec<u8>, String>, expiry_date: i64) -> (entry: Result<
        SessionRecord,
        Error,
    >)
        ensures
            result_view(entry) == sealed(result_view(packed), expiry_date as int),
    {
        match packed {
            Ok(data) => Ok(SessionRecord { data, expiry_date }),
            Err(message) => Err(Error::Encode(message)),
        }
    }

    /// Lets the stored form of `session` stand if the reader of its
    /// payload got through and found the session's identifier and expiry,
    /// and gives an encoding error if not.
    pub fn read_back(self, session: &Record, unpacked: Result<Record, String>) -> (entry: Result<
        SessionRecord,
        Error,
    >)
        ensures
            result_view(entry) == confirmed(self@, session@, result_view(unpacked)),
    {
        match unpacked {
            Ok(read) => {
                if read.id == session.id && read.expiry_date == session.expiry_date {
                    Ok(self)
                } else {
                    Err(Error::Encode("Session record does not read back".to_owned()))
                }
            },
            Err(message) => Err(Error::Encode(message)),
        }
    }

    /// The stored form of a session. The session is written and what was
    /// written is read back, so that a session that is stored can be
    /// loaded, with the identifier and the expiry it was stored with. A
    /// session whose expiry is an instant of the calendar is always
    /// written; it is stored if and only if the payload reads back so.
    pub fn from_session(session: &Record) -> (entry: Result<SessionRecord, Error>)
        ensures
            result_view(entry) == encoded(session@),
            session.expiry_date.is_instant() ==> packed(session@) is Ok,
            session.expiry_date.is_instant() ==> (entry is Ok <==> {
                &&& unpacked(packed(session@)->Ok_0) matches Ok(read)
                &&& read.id == session.id
                &&& read.expiry_date == session.expiry_date
            }),
    {
        match SessionRecord::from_packed(pack(session), session.expiry_date.seconds) {
            Ok(stored) => {
                let read = unpack(stored.data.as_slice());
                stored.read_back(session, read)
            },
            Err(error) => Err(error),
        }
    }

    /// The session that this stored form holds.
    pub fn to_session(&self) -> (session: Result<Record, Error>)
        ensures
            result_view(session) == decoded(self@),
    {
        Record::from_unpacked(unpack(self.data.as_slice()))
    }
}

impl Record {
    /// Takes a reader's outcome for what it is: the session that was read,
    /// or a decoding error with the reader's message.
    pub fn from_unpacked(unpacked: Result<Record, String>) -> (session: Result<Record, Error>)
        ensures
            result_view(session) == opened(result_view(unpacked)),
    {
        match unpacked {
            Ok(session) => Ok(session),
            Err(message) => Err(Error::Decode(message)),
        }
    }
}

} // verus!
