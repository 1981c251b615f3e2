//! The session store: which command each operation needs, and what the
//! backend's reply means for it.

use crate::backend::{expired, Command, CommandView};
use crate::codec::{decoded, encoded, SessionRecord, SessionRecordView};
use crate::error::{result_option_view, result_view, Error, ErrorView};
use crate::record::{fresh_id, id_text, render_id, Id, Record, RecordView};
use vstd::prelude::*;

verus! {

/// A session store over one table of a backend. It holds the table's name
/// and nothing else, so it can be shared freely.
#[derive(Clone, Debug)]
pub struct SurrealSessionStore {
    session_table: String,
}

/// What loading gives for a backend's answer to a fetch, at the time `now`:
/// nothing where there is no entry or the entry has expired, else the
/// session that the entry holds.
pub open spec fn load_outcome(fetched: Result<Option<SessionRecordView>, Seq<char>>, now: int) -> Result<
    Option<RecordView>,
    ErrorView,
> {
    match fetched {
        Err(message) => Err(ErrorView::Backend(message)),
        Ok(None) => Ok(None),
        Ok(Some(entry)) => if expired(entry, now) {
            Ok(None)
        } else {
            match decoded(entry) {
                Ok(session) => Ok(Some(session)),
                Err(error) => Err(error),
            }
        },
    }
}

/// What saving gives for a backend's answer to an upsert, which says
/// whether the entry is now stored.
pub open spec fn save_outcome(stored: Result<bool, Seq<char>>) -> Result<(), ErrorView> {
    match stored {
        Err(message) => Err(ErrorView::Backend(message)),
        Ok(false) => Err(ErrorView::Backend("Session record not saved"@)),
        Ok(true) => Ok(()),
    }
}

/// What an operation gives for a backend's answer to a removal.
pub open spec fn delete_outcome(deleted: Result<(), Seq<char>>) -> Result<(), ErrorView> {
    match deleted {
        Err(message) => Err(ErrorView::Backend(message)),
        Ok(()) => Ok(()),
    }
}

/// The command that saves `session` in `table`: an upsert of its stored
/// form under its key, or the failure to encode it.
pub open spec fn save_command_for(table: Seq<char>, session: RecordView) -> Result<
    CommandView,
    ErrorView,
> {
    match encoded(session) {
        Ok(entry) => Ok(CommandView::Upsert { table, key: id_text(session.id.0), entry }),
        Err(error) => Err(error),
    }
}

/// Whether `command` is what saving `session` in `table` takes.
pub open spec fn saves(table: Seq<char>, session: RecordView, command: Result<CommandView, ErrorView>) -> bool {
    command == save_command_for(table, session)
}

/// Whether one step of creating a session is in order: `before` is the
/// session when the backend answered the probe for its key with `occupied`,
/// `after` the session after the step, `next` what the step asks for.
///
/// Where the key is taken, the session gets another identifier and the new
/// key is probed. Where it is free, the session is saved as it is. Where the
/// backend failed, so does the step.
pub open spec fn creates(
    table: Seq<char>,
    before: RecordView,
    occupied: Result<bool, Seq<char>>,
    after: RecordView,
    next: Result<CommandView, ErrorView>,
) -> bool {
    match occupied {
        Err(message) => after == before && next == Err::<CommandView, ErrorView>(
            ErrorView::Backend(message),
        ),
        Ok(true) => {
            &&& after.data == before.data
            &&& after.expiry_date == before.expiry_date
            &&& next == Ok::<CommandView, ErrorView>(
                CommandView::Probe { table, key: id_text(after.id.0) },
            )
        },
        Ok(false) => after == before && saves(table, before, next),
    }
}

impl SurrealSessionStore {
    /// The name of the table that the store keeps its sessions in.
    pub closed spec fn table(&self) -> Seq<char> {
        self.session_table@
    }

    /// A store that keeps its sessions in the given table.
    pub fn new(session_table: String) -> (store: Self)
        ensures
            store.table() == session_table@,
    {
        SurrealSessionStore { session_table }
    }

    /// The command that loading a session starts with: a fetch under the
    /// session's key.
    pub fn load_command(&self, session_id: &Id) -> (command: Command)
        ensures
            command@ == (CommandView::Fetch { table: self.table(), key: id_text(session_id.0) }),
    {
        Command::Fetch { table: self.session_table.clone(), key: render_id(session_id.0) }
    }

    /// The session that a fetch has brought, at the time `now` in Unix
    /// seconds. An entry that has expired counts as absent; it is left for
    /// the next sweep to remove.
    pub fn load_result(&self, fetched: Result<Option<SessionRecord>, String>, now: i64) -> (loaded:
        Result<Option<Record>, Error>)
        ensures
            result_option_view(loaded) == load_outcome(result_option_view(fetched), now as int),
    {
        match fetched {
            Err(message) => Err(Error::Backend(message)),
            Ok(None) => Ok(None),
            Ok(Some(entry)) => {
                if entry.expiry_date <= now {
                    Ok(None)
                } else {
                    match entry.to_session() {
                        Ok(session) => Ok(Some(session)),
                        Err(error) => Err(error),
                    }
                }
            },
        }
    }

    /// The command that files a given entry under a session's key.
    pub fn upsert_command(&self, session_id: &Id, entry: SessionRecord) -> (command: Command)
        ensures
            command@ == (CommandView::Upsert {
                table: self.table(),
                key: id_text(session_id.0),
                entry: entry@,
            }),
    {
        Command::Upsert {
            table: self.session_table.clone(),
            key: render_id(session_id.0),
            entry,
        }
    }

    /// The command that saving a session takes: an upsert of its stored
    /// form under its key. If the session cannot be encoded there is no
    /// command, and nothing is written.
    pub fn save_command(&self, session: &Record) -> (command: Result<Command, Error>)
        ensures
            result_view(command) == save_command_for(self.table(), session@),
    {
        match SessionRecord::from_session(session) {
            Ok(entry) => Ok(self.upsert_command(&session.id, entry)),
            Err(error) => Err(error),
        }
    }

    /// Whether a save went through, from the backend's answer to the
    /// upsert.
    pub fn save_result(&self, stored: Result<bool, String>) -> (saved: Result<(), Error>)
        ensures
            result_view(saved) == save_outcome(result_view(stored)),
    {
        match stored {
            Err(message) => Err(Error::Backend(message)),
            Ok(false) => Err(Error::Backend("Session record not saved".to_owned())),
            Ok(true) => Ok(()),
        }
    }

    /// The command that creating a session starts with: a probe for the
    /// session's key.
    pub fn create_command(&self, session: &Record) -> (command: Command)
        ensures
            command@ == (CommandView::Probe { table: self.table(), key: id_text(session.id.0) }),
    {
        Command::Probe { table: self.session_table.clone(), key: render_id(session.id.0) }
    }

    /// Gives a session another identifier and says how to go on creating
    /// it: with a probe for the key of that identifier.
    pub fn create_retry(&self, session: &mut Record, id: Id) -> (command: Command)
        ensures
            final(session)@ == (RecordView { id, ..old(session)@ }),
            command@ == (CommandView::Probe { table: self.table(), key: id_text(id.0) }),
    {
        session.id = id;
        self.create_command(session)
    }

    /// One step of creating a session, taken when the backend has answered
    /// the probe for the session's key. A taken key makes the step draw a
    /// new identifier for the session and ask for a probe of its key; a free
    /// key makes it ask for the upsert that saves the session, after which
    /// the creation is over and `save_result` reads the answer.
    pub fn create_step(&self, session: &mut Record, occupied: Result<bool, String>) -> (next:
        Result<Command, Error>)
        ensures
            creates(
                self.table(),
                old(session)@,
                result_view(occupied),
                final(session)@,
                result_view(next),
            ),
    {
        match occupied {
            Err(message) => Err(Error::Backend(message)),
            Ok(true) => Ok(self.create_retry(session, fresh_id())),
            Ok(false) => self.save_command(session),
        }
    }

    /// The command that deletes a session: a removal under its key.
    pub fn delete_command(&self, session_id: &Id) -> (command: Command)
        ensures
            command@ == (CommandView::Delete { table: self.table(), key: id_text(session_id.0) }),
    {
        Command::Delete { table: self.session_table.clone(), key: render_id(session_id.0) }
    }

    /// Whether a deletion went through. A backend that had nothing to remove
    /// has not failed.
    pub fn delete_result(&self, deleted: Result<(), String>) -> (done: Result<(), Error>)
        ensures
            result_view(done) == delete_outcome(result_view(deleted)),
    {
        match deleted {
            Err(message) => Err(Error::Backend(message)),
            Ok(()) => Ok(()),
        }
    }

    /// The command that sweeps the table at the time `now` in Unix seconds:
    /// one removal of every entry that has expired by then.
    pub fn delete_expired_command(&self, now: i64) -> (command: Command)
        ensures
            command@ == (CommandView::DeleteExpired { table: self.table(), now: now as int }),
    {
        Command::DeleteExpired { table: self.session_table.clone(), now }
    }

    /// Whether a sweep went through.
    pub fn delete_expired_result(&self, swept: Result<(), String>) -> (done: Result<(), Error>)
        ensures
            result_view(done) == delete_outcome(result_view(swept)),
    {
        self.delete_result(swept)
    }
}

} // verus!
