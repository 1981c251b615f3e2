//! A session as the store's callers see it.

use std::collections::BTreeMap;
use vstd::prelude::*;

verus! {

/// A JSON value of a session's data. The store carries these through without
/// looking inside.
#[verifier::external_type_specification]
#[verifier::external_body]
pub struct ExJsonValue(serde_json::Value);

/// The identifier of a session.
#[derive(Clone, Copy, Debug, PartialEq, Eq, Hash, Structural)]
pub struct Id(pub i128);

/// A point in time: whole seconds since the Unix epoch and the nanoseconds
/// past that second.
#[derive(Clone, Copy, Debug, PartialEq, Eq, Structural)]
pub struct Timestamp {
    pub seconds: i64,
    pub nanosecond: u32,
}

impl Timestamp {
    /// Whether this is an instant of the calendar: the nanosecond is less
    /// than a second, and the second lies in the years -9999 to 9999.
    pub open spec fn is_instant(self) -> bool {
        &&& self.nanosecond < 1_000_000_000
        &&& -377_705_116_800 <= self.seconds <= 253_402_300_799
    }
}

/// A session: its identifier, its data and the instant at which it expires.
/// The data is kept in the order of its keys, so that sessions that are
/// equal are stored alike.
#[derive(Clone, Debug, PartialEq)]
pub struct Record {
    pub id: Id,
    pub data: BTreeMap<String, serde_json::Value>,
    pub expiry_date: Timestamp,
}

/// A [`Record`] with its data as a mathematical map.
pub struct RecordView {
    pub id: Id,
    pub data: Map<String, serde_json::Value>,
    pub expiry_date: Timestamp,
}

impl View for Record {
    type V = RecordView;

    open spec fn view(&self) -> RecordView {
        RecordView { id: self.id, data: self.data@, expiry_date: self.expiry_date }
    }
}

/// The text under which the backend files the session with identifier `id`:
/// what `Display` of `tower_sessions_core::session::Id` writes for it.
pub uninterp spec fn id_text(id: i128) -> Seq<char>;

/// Writes an identifier as `tower_sessions_core::session::Id` displays it:
/// the sixteen bytes of the number, lowest first, in URL-safe base64 without
/// padding. The contract only gives that text its name.
#[verifier::external_body]
pub(crate) fn render_id(id: i128) -> (text: String)
    ensures
        text@ == id_text(id),
{
    tower_sessions_core::session::Id(id).to_string()
}

/// Draws a new identifier with `Default` of
/// `tower_sessions_core::session::Id`, which takes it from the thread's
/// random number generator. Nothing is promised of the number drawn. The
/// generator panics if the operating system gives it no seed.
#[verifier::external_body]
pub(crate) fn fresh_id() -> Id {
    Id(tower_sessions_core::session::Id::default().0)
}

} // verus!
