//! What the store guarantees, proved against the model of a backend.
//!
//! Each law speaks of a table as a backend holds it, of the commands that
//! the store's functions promise, and of what the store makes of the
//! backend's answers when the backend answers for that table.

use crate::backend::{effect, expired, found, CommandView, Table};
use crate::codec::{decoded, encoded, unpacked};
use crate::error::ErrorView;
use crate::record::{id_text, Id, RecordView};
use crate::store::{creates, delete_outcome, load_outcome, save_command_for, saves};
use vstd::prelude::*;

verus! {

/// What loading the session `id` gives at the time `now`, when the backend
/// answers the fetch from `table`.
pub open spec fn loads(table: Table, id: Id, now: int) -> Result<Option<RecordView>, ErrorView> {
    load_outcome(Ok(found(table, id_text(id.0))), now)
}

/// Sessions that are equal are stored alike: the stored form, and with it
/// the command that saves a session, depends on the session alone, whatever
/// the order in which its data was put together.
pub proof fn equal_sessions_are_stored_alike(name: Seq<char>, first: RecordView, second: RecordView)
    requires
        first.id == second.id,
        first.data =~= second.data,
        first.expiry_date == second.expiry_date,
    ensures
        encoded(first) == encoded(second),
        save_command_for(name, first) == save_command_for(name, second),
{
}

/// What the store has saved it can read: the entry of a saved session
/// expires in the session's second and holds a session with the same
/// identifier and the same expiry, and loading it before it expires gives
/// that session and no error. The second beside a payload that the store
/// wrote is so the second of the expiry inside it.
pub proof fn saved_session_is_readable(
    table: Table,
    name: Seq<char>,
    session: RecordView,
    command: CommandView,
    now: int,
)
    requires
        saves(name, session, Ok(command)),
        session.expiry_date.seconds > now,
    ensures
        command->Upsert_entry.expiry_date == session.expiry_date.seconds,
        decoded(command->Upsert_entry) matches Ok(held) && held.id == session.id
            && held.expiry_date == session.expiry_date,
        loads(effect(table, command), session.id, now) == Ok::<Option<RecordView>, ErrorView>(
            Some(decoded(command->Upsert_entry)->Ok_0),
        ),
{
}

/// A session that was saved and has not expired is loaded again as it was,
/// provided that the data in its payload reads back as the data it was made
/// from.
pub proof fn saved_session_is_loaded(
    table: Table,
    name: Seq<char>,
    session: RecordView,
    command: CommandView,
    now: int,
)
    requires
        saves(name, session, Ok(command)),
        session.expiry_date.seconds > now,
        unpacked(command->Upsert_entry.data)->Ok_0.data == session.data,
    ensures
        loads(effect(table, command), session.id, now) == Ok::<Option<RecordView>, ErrorView>(
            Some(session),
        ),
{
}

/// A session saved with an expiry that has passed is not loaded, though its
/// entry stays in the table until the table is swept: the fetch that loading
/// starts with leaves the table as it is.
pub proof fn expired_session_is_absent(
    table: Table,
    name: Seq<char>,
    session: RecordView,
    command: CommandView,
    now: int,
)
    requires
        saves(name, session, Ok(command)),
        session.expiry_date.seconds <= now,
    ensures
        loads(effect(table, command), session.id, now) == Ok::<Option<RecordView>, ErrorView>(None),
        effect(table, command).contains_key(id_text(session.id.0)),
        effect(
            effect(table, command),
            CommandView::Fetch { table: name, key: id_text(session.id.0) },
        ) == effect(table, command),
{
}

/// Deleting a session that has no entry changes nothing and is no failure;
/// deleting twice leaves what deleting once leaves; and a deleted session is
/// not loaded.
pub proof fn delete_is_idempotent(table: Table, name: Seq<char>, id: Id, now: int)
    ensures
        ({
            let command = CommandView::Delete { table: name, key: id_text(id.0) };
            &&& !table.contains_key(id_text(id.0)) ==> effect(table, command) == table
            &&& effect(effect(table, command), command) == effect(table, command)
            &&& loads(effect(table, command), id, now) == Ok::<Option<RecordView>, ErrorView>(None)
        }),
        delete_outcome(Ok(())) == Ok::<(), ErrorView>(()),
{
    let command = CommandView::Delete { table: name, key: id_text(id.0) };
    if !table.contains_key(id_text(id.0)) {
        assert(effect(table, command) =~= table);
    }
    assert(effect(effect(table, command), command) =~= effect(table, command));
}

/// A sweep at the time `now` removes the entries that expire at `now` or
/// earlier and no others, and leaves the rest as they were.
pub proof fn sweep_removes_the_expired(table: Table, name: Seq<char>, now: int, key: Seq<char>)
    ensures
        ({
            let after = effect(table, CommandView::DeleteExpired { table: name, now });
            &&& after.contains_key(key) <==> table.contains_key(key) && table[key].expiry_date > now
            &&& after.contains_key(key) ==> after[key] == table[key]
        }),
{
}

/// A sweep does not change what loading gives: a session whose entry the
/// sweep removes was not loaded before the sweep either.
pub proof fn sweep_is_invisible_to_load(table: Table, name: Seq<char>, now: int, id: Id)
    ensures
        ({
            let after = effect(table, CommandView::DeleteExpired { table: name, now });
            &&& loads(after, id, now) == loads(table, id, now)
            &&& table.contains_key(id_text(id.0)) && !after.contains_key(id_text(id.0)) ==> loads(
                table,
                id,
                now,
            ) == Ok::<Option<RecordView>, ErrorView>(None)
        }),
{
}

/// Creating a session never writes over an entry. The step that asks for
/// the upsert does so under a key that is free, so the session's identifier
/// differs from that of every session in the table, and every entry of the
/// table is there unchanged afterwards.
pub proof fn create_avoids_collisions(
    table: Table,
    name: Seq<char>,
    before: RecordView,
    after: RecordView,
    command: CommandView,
    other: Id,
)
    requires
        creates(name, before, Ok(table.contains_key(id_text(before.id.0))), after, Ok(command)),
        command is Upsert,
        table.contains_key(id_text(other.0)),
    ensures
        command->Upsert_key == id_text(after.id.0),
        !table.contains_key(command->Upsert_key),
        after.id != other,
        effect(table, command).contains_key(id_text(other.0)),
        effect(table, command)[id_text(other.0)] == table[id_text(other.0)],
{
}

/// Whether `sessions` are the states that a session goes through while it
/// is created in `table`, and `command` is what the last step asks for. Each
/// state but the last has a key that is taken, and a step leads from it to
/// the next state and to a probe of that state's key. The last state has a
/// key that is free, and a step on it gives `command`.
pub open spec fn creation(
    table: Table,
    name: Seq<char>,
    sessions: Seq<RecordView>,
    command: CommandView,
) -> bool {
    &&& sessions.len() > 0
    &&& forall|i: int|
        0 <= i < sessions.len() - 1 ==> {
            &&& table.contains_key(id_text(#[trigger] sessions[i].id.0))
            &&& creates(
                name,
                sessions[i],
                Ok(true),
                sessions[i + 1],
                Ok(CommandView::Probe { table: name, key: id_text(sessions[i + 1].id.0) }),
            )
        }
    &&& !table.contains_key(id_text(sessions.last().id.0))
    &&& creates(name, sessions.last(), Ok(false), sessions.last(), Ok(command))
}

/// Along a creation the session keeps its data and its expiry.
proof fn creation_keeps_the_session(
    table: Table,
    name: Seq<char>,
    sessions: Seq<RecordView>,
    command: CommandView,
    i: int,
)
    requires
        creation(table, name, sessions, command),
        0 <= i < sessions.len(),
    ensures
        sessions[i].data == sessions[0].data,
        sessions[i].expiry_date == sessions[0].expiry_date,
    decreases i,
{
    if i > 0 {
        creation_keeps_the_session(table, name, sessions, command, i - 1);
        assert(table.contains_key(id_text(sessions[i - 1].id.0)));
    }
}

/// However often the identifier had to be drawn again, a creation ends with
/// the upsert of the session under a key that was free, with the data and
/// the expiry that it came with. If the identifier it came with was taken,
/// it ends with another one, and the entry under the first is untouched.
pub proof fn creation_ends_on_a_free_key(
    table: Table,
    name: Seq<char>,
    sessions: Seq<RecordView>,
    command: CommandView,
)
    requires
        creation(table, name, sessions, command),
    ensures
        saves(name, sessions.last(), Ok(command)),
        !table.contains_key(command->Upsert_key),
        sessions.last().data == sessions[0].data,
        sessions.last().expiry_date == sessions[0].expiry_date,
        table.contains_key(id_text(sessions[0].id.0)) ==> {
            &&& sessions.last().id != sessions[0].id
            &&& effect(table, command).contains_key(id_text(sessions[0].id.0))
            &&& effect(table, command)[id_text(sessions[0].id.0)] == table[id_text(
                sessions[0].id.0,
            )]
        },
{
    creation_keeps_the_session(table, name, sessions, command, sessions.len() - 1);
}

/// Of two saves under one identifier the second is the one that counts: the
/// table is as if the first had not happened, and loading gives what the
/// second entry holds, which has the identifier and the expiry of the second
/// session, and is the second session if its data reads back as it was
/// written.
pub proof fn second_save_overwrites(
    table: Table,
    name: Seq<char>,
    first: RecordView,
    second: RecordView,
    first_command: CommandView,
    second_command: CommandView,
    now: int,
)
    requires
        first.id == second.id,
        saves(name, first, Ok(first_command)),
        saves(name, second, Ok(second_command)),
    ensures
        effect(effect(table, first_command), second_command) == effect(table, second_command),
        loads(effect(effect(table, first_command), second_command), second.id, now)
            == load_outcome(Ok(Some(second_command->Upsert_entry)), now),
        second.expiry_date.seconds > now ==> {
            &&& loads(effect(effect(table, first_command), second_command), second.id, now)
                matches Ok(Some(held))
            &&& held.id == second.id
            &&& held.expiry_date == second.expiry_date
            &&& unpacked(second_command->Upsert_entry.data)->Ok_0.data == second.data ==> held
                == second
        },
{
    assert(effect(effect(table, first_command), second_command) =~= effect(
        table,
        second_command,
    ));
}

/// An entry that has not expired and whose payload cannot be read makes
/// loading fail with a decoding error that carries the reader's message.
pub proof fn corrupt_payload_fails_to_load(table: Table, id: Id, now: int)
    requires
        table.contains_key(id_text(id.0)),
        !expired(table[id_text(id.0)], now),
        unpacked(table[id_text(id.0)].data) is Err,
    ensures
        loads(table, id, now) == Err::<Option<RecordView>, ErrorView>(
            ErrorView::Decode(unpacked(table[id_text(id.0)].data)->Err_0),
        ),
{
}

} // verus!
