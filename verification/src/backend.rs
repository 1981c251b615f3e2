//! What the store asks of a backend, and what a backend is expected to do.
//!
//! A backend keeps one entry per key in each of its tables. The store needs
//! five things of it: to give the entry under a key, to say whether a key is
//! taken, to file an entry under a key, to remove the entry under a key, and
//! to remove all entries that have expired. [`Command`] names them; the
//! functions below say, on a mathematical map, what each does to a table.

use crate::codec::{SessionRecord, SessionRecordView};
use vstd::prelude::*;

verus! {

/// One request to the backend. Each names the table it is about.
#[derive(Clone, Debug, PartialEq, Eq)]
pub enum Command {
    /// Give the entry filed under `key`, if there is one.
    Fetch { table: String, key: String },
    /// Say whether an entry is filed under `key`.
    Probe { table: String, key: String },
    /// File `entry` under `key`, in place of what was there.
    Upsert { table: String, key: String, entry: SessionRecord },
    /// Remove the entry filed under `key`, if there is one.
    Delete { table: String, key: String },
    /// Remove every entry that expires at `now` or earlier.
    DeleteExpired { table: String, now: i64 },
}

/// A [`Command`] as mathematical values.
pub enum CommandView {
    Fetch { table: Seq<char>, key: Seq<char> },
    Probe { table: Seq<char>, key: Seq<char> },
    Upsert { table: Seq<char>, key: Seq<char>, entry: SessionRecordView },
    Delete { table: Seq<char>, key: Seq<char> },
    DeleteExpired { table: Seq<char>, now: int },
}

impl View for Command {
    type V = CommandView;

    open spec fn view(&self) -> CommandView {
        match self {
            Command::Fetch { table, key } => CommandView::Fetch { table: table@, key: key@ },
            Command::Probe { table, key } => CommandView::Probe { table: table@, key: key@ },
            Command::Upsert { table, key, entry } => CommandView::Upsert {
                table: table@,
                key: key@,
                entry: entry@,
            },
            Command::Delete { table, key } => CommandView::Delete { table: table@, key: key@ },
            Command::DeleteExpired { table, now } => CommandView::DeleteExpired {
                table: table@,
                now: *now as int,
            },
        }
    }
}

/// The contents of one table: the entry filed under each key.
pub type Table = Map<Seq<char>, SessionRecordView>;

/// The entry that a table gives for a key.
pub open spec fn found(table: Table, key: Seq<char>) -> Option<SessionRecordView> {
    if table.contains_key(key) {
        Some(table[key])
    } else {
        None
    }
}

/// Whether an entry has expired at `now`: its expiry second is `now` or
/// earlier.
pub open spec fn expired(entry: SessionRecordView, now: int) -> bool {
    entry.expiry_date <= now
}

/// A table without the entries that have expired at `now`.
pub open spec fn swept(table: Table, now: int) -> Table {
    Map::new(
        |key: Seq<char>| table.contains_key(key) && !expired(table[key], now),
        |key: Seq<char>| table[key],
    )
}

/// The table that a command leaves behind, when run on the table it names.
pub open spec fn effect(table: Table, command: CommandView) -> Table {
    match command {
        CommandView::Fetch { .. } => table,
        CommandView::Probe { .. } => table,
        CommandView::Upsert { key, entry, .. } => table.insert(key, entry),
        CommandView::Delete { key, .. } => table.remove(key),
        CommandView::DeleteExpired { now, .. } => swept(table, now),
    }
}

} // verus!
