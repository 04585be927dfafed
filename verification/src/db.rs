//! The persistence that the delivery of messages rests on, held in memory:
//! the stored messages in the order of their ids, the acknowledgment cursor
//! of each receiver, and the registry of devices. Until `init` has run every
//! operation reports `NotInitialized`.

use vstd::hash_map::StringHashMap;
use vstd::prelude::*;
use crate::client::Client;
use crate::message::{backlog, ids_ascend, inbox, selected, selector, Message, MessageAck};
use crate::text::{owned, str_eq};

verus! {

/// Why an operation on the store did nothing.
#[derive(Clone, Copy, Debug, PartialEq, Eq, Structural)]
pub enum DbError {
    /// The store has not been initialized.
    NotInitialized,
    /// A device with this id is registered already.
    Conflict,
    /// No message id is left.
    Exhausted,
    /// The update names no field.
    NoFields,
}

impl DbError {
    /// The text that describes the error.
    pub open spec fn message_text(self) -> Seq<char> {
        match self {
            DbError::NotInitialized => "SQLite connection pool has not been initialized"@,
            DbError::Conflict => "A device with this id is registered already"@,
            DbError::Exhausted => "No message id is left"@,
            DbError::NoFields => "No fields need to update"@,
        }
    }

    /// The text that describes the error.
    pub fn message(&self) -> (text: String)
        ensures
            text@ == self.message_text(),
    {
        match self {
            DbError::NotInitialized => owned("SQLite connection pool has not been initialized"),
            DbError::Conflict => owned("A device with this id is registered already"),
            DbError::Exhausted => owned("No message id is left"),
            DbError::NoFields => owned("No fields need to update"),
        }
    }
}

/// The three tables.
pub struct Tables {
    messages: Vec<Message>,
    acks: StringHashMap<Option<i32>>,
    clients: StringHashMap<Client>,
}

/// The store: its tables once it is initialized.
pub struct DBManager {
    db_pool: Option<Tables>,
}

/// The messages of `messages` from position `from` on that a query
/// selects, newest first.
spec fn selected_from(
    messages: Seq<Message>,
    from: int,
    receiver: Seq<char>,
    after_id: Option<i32>,
) -> Seq<Message> {
    messages.subrange(from, messages.len() as int).filter(selector(receiver, after_id)).reverse()
}

/// Moving the start of the range one message to the left puts that message,
/// if the query selects it, at the end of the selection.
proof fn lemma_selected_from_step(
    messages: Seq<Message>,
    from: int,
    receiver: Seq<char>,
    after_id: Option<i32>,
)
    requires
        0 < from <= messages.len(),
    ensures
        selected_from(messages, from - 1, receiver, after_id) == if selected(
            messages[from - 1],
            receiver,
            after_id,
        ) {
            selected_from(messages, from, receiver, after_id).push(messages[from - 1])
        } else {
            selected_from(messages, from, receiver, after_id)
        },
{
    let p = selector(receiver, after_id);
    let tail = messages.subrange(from, messages.len() as int);
    let m = messages[from - 1];
    assert(messages.subrange(from - 1, messages.len() as int) =~= seq![m] + tail);
    tail.lemma_filter_prepend(m, p);
    let kept = tail.filter(p);
    if p(m) {
        assert((seq![m] + kept).reverse() =~= kept.reverse().push(m));
    } else {
        assert(Seq::<Message>::empty() + kept =~= kept);
    }
}

/// The messages of `messages` that a query selects, newest first.
fn select(messages: &Vec<Message>, receiver: &str, after_id: Option<i32>) -> (found: Vec<Message>)
    ensures
        found@ == messages@.filter(selector(receiver@, after_id)).reverse(),
{
    let mut found: Vec<Message> = Vec::new();
    let mut i = messages.len();
    proof {
        let p = selector(receiver@, after_id);
        assert(messages@.subrange(i as int, messages@.len() as int) =~= Seq::<Message>::empty());
        reveal(Seq::filter);
        assert(Seq::<Message>::empty().filter(p) =~= Seq::<Message>::empty());
        assert(Seq::<Message>::empty().reverse() =~= Seq::<Message>::empty());
    }
    while i > 0
        invariant
            i <= messages.len(),
            found@ == selected_from(messages@, i as int, receiver@, after_id),
        decreases i,
    {
        proof {
            lemma_selected_from_step(messages@, i as int, receiver@, after_id);
        }
        i -= 1;
        let m = &messages[i];
        let above = match after_id {
            Some(bound) => match m.id {
                Some(id) => id > bound,
                None => false,
            },
            None => true,
        };
        if above && str_eq(m.receiver.as_str(), receiver) {
            found.push(m.clone());
        }
    }
    assert(messages@.subrange(0, messages@.len() as int) =~= messages@);
    found
}

impl DBManager {
    /// Whether the store has been initialized.
    pub closed spec fn ready(&self) -> bool {
        self.db_pool is Some
    }

    /// The stored messages, oldest first.
    pub closed spec fn messages(&self) -> Seq<Message> {
        match self.db_pool {
            Some(tables) => tables.messages@,
            None => Seq::empty(),
        }
    }

    /// The acknowledgment cursor of each receiver that has one.
    pub closed spec fn cursors(&self) -> Map<Seq<char>, Option<i32>> {
        match self.db_pool {
            Some(tables) => tables.acks@,
            None => Map::empty(),
        }
    }

    /// The registered devices, by id.
    pub closed spec fn devices(&self) -> Map<Seq<char>, Client> {
        match self.db_pool {
            Some(tables) => tables.clients@,
            None => Map::empty(),
        }
    }

    /// The invariant of the store: message ids grow along the stored
    /// messages.
    pub open spec fn wf(&self) -> bool {
        ids_ascend(self.messages())
    }

    /// The id that the next stored message gets.
    pub open spec fn next_id(&self) -> int {
        if self.messages().len() == 0 {
            1
        } else {
            self.messages().last().id->0 + 1
        }
    }

    /// What storing `payload` at the time `now` returns: the stored message,
    /// or why nothing was stored.
    pub open spec fn inserted(&self, payload: Message, now: i64) -> Result<Message, DbError> {
        if !self.ready() {
            Err(DbError::NotInitialized)
        } else if self.next_id() > i32::MAX {
            Err(DbError::Exhausted)
        } else {
            Ok(
                Message {
                    id: Some(self.next_id() as i32),
                    created_at: Some(now),
                    updated_at: Some(now),
                    ..payload
                },
            )
        }
    }

    /// A store that is not initialized yet.
    pub fn new() -> (db: Self)
        ensures
            !db.ready(),
            db.wf(),
    {
        DBManager { db_pool: None }
    }

    /// Initializes the store with empty tables, unless it is initialized
    /// already.
    pub fn init(&mut self)
        requires
            old(self).wf(),
        ensures
            final(self).wf(),
            final(self).ready(),
            old(self).ready() ==> *final(self) == *old(self),
            !old(self).ready() ==> {
                &&& final(self).messages() == Seq::<Message>::empty()
                &&& final(self).cursors() == Map::<Seq<char>, Option<i32>>::empty()
                &&& final(self).devices() == Map::<Seq<char>, Client>::empty()
            },
    {
        if self.db_pool.is_none() {
            self.db_pool = Some(
                Tables {
                    messages: Vec::new(),
                    acks: StringHashMap::new(),
                    clients: StringHashMap::new(),
                },
            );
        }
    }

    /// Whether the store has been initialized.
    pub fn is_ready(&self) -> (ready: bool)
        ensures
            ready == self.ready(),
    {
        self.db_pool.is_some()
    }

    /// The device registered under `id`, if there is one.
    pub fn get_device(&self, id: &str) -> (found: Result<Option<Client>, DbError>)
        ensures
            !self.ready() ==> found == Err::<Option<Client>, DbError>(DbError::NotInitialized),
            self.ready() ==> found == Ok::<Option<Client>, DbError>(self.devices().get(id@)),
    {
        match &self.db_pool {
            None => Err(DbError::NotInitialized),
            Some(tables) => match tables.clients.get(id) {
                Some(client) => Ok(Some(client.clone())),
                None => Ok(None),
            },
        }
    }

    /// Registers `device` at the time `now`, unless its id is taken.
    pub fn insert_device(&mut self, device: &Client, now: i64) -> (stored: Result<Client, DbError>)
        requires
            old(self).wf(),
        ensures
            final(self).wf(),
            final(self).ready() == old(self).ready(),
            final(self).messages() == old(self).messages(),
            final(self).cursors() == old(self).cursors(),
            !old(self).ready() ==> stored == Err::<Client, DbError>(DbError::NotInitialized),
            old(self).ready() && old(self).devices().contains_key(device.id@) ==> stored == Err::<
                Client,
                DbError,
            >(DbError::Conflict),
            old(self).ready() && !old(self).devices().contains_key(device.id@) ==> stored == Ok::<
                Client,
                DbError,
            >(device.registered(now)),
            final(self).devices() == match stored {
                Ok(c) => old(self).devices().insert(device.id@, c),
                Err(_) => old(self).devices(),
            },
    {
        match &mut self.db_pool {
            None => Err(DbError::NotInitialized),
            Some(tables) => {
                if tables.clients.contains_key(device.id.as_str()) {
                    return Err(DbError::Conflict);
                }
                let copy = device.clone();
                let record = Client {
                    id: copy.id,
                    name: copy.name,
                    avatar: copy.avatar,
                    auto_message_clean: None,
                    created_at: Some(now),
                    updated_at: Some(now),
                };
                tables.clients.insert(device.id.clone(), record.clone());
                Ok(record)
            },
        }
    }

    /// Writes the fields that `device` names into the stored record of the
    /// same id, if there is one.
    pub fn update_device(&mut self, device: &Client, now: i64) -> (done: Result<(), DbError>)
        requires
            old(self).wf(),
        ensures
            final(self).wf(),
            final(self).ready() == old(self).ready(),
            final(self).messages() == old(self).messages(),
            final(self).cursors() == old(self).cursors(),
            !old(self).ready() ==> done == Err::<(), DbError>(DbError::NotInitialized),
            old(self).ready() ==> done is Ok,
            final(self).devices() == if done is Ok && old(self).devices().contains_key(
                device.id@,
            ) {
                old(self).devices().insert(
                    device.id@,
                    device.updated(old(self).devices()[device.id@], now),
                )
            } else {
                old(self).devices()
            },
    {
        match &mut self.db_pool {
            None => Err(DbError::NotInitialized),
            Some(tables) => {
                let stored = match tables.clients.get(device.id.as_str()) {
                    Some(stored) => stored.clone(),
                    None => {
                        return Ok(());
                    },
                };
                let named = device.clone();
                let record = Client {
                    id: stored.id,
                    name: if named.name.is_some() {
                        named.name
                    } else {
                        stored.name
                    },
                    avatar: if named.avatar.is_some() {
                        named.avatar
                    } else {
                        stored.avatar
                    },
                    auto_message_clean: if named.auto_message_clean.is_some() {
                        named.auto_message_clean
                    } else {
                        stored.auto_message_clean
                    },
                    created_at: stored.created_at,
                    updated_at: Some(now),
                };
                tables.clients.insert(device.id.clone(), record);
                Ok(())
            },
        }
    }

    /// Stores `payload` as the newest message, with the next id and the
    /// time `now`, and returns the stored message.
    pub fn insert_message(&mut self, payload: &Message, now: i64) -> (stored: Result<
        Message,
        DbError,
    >)
        requires
            old(self).wf(),
        ensures
            final(self).wf(),
            stored == old(self).inserted(*payload, now),
            final(self).ready() == old(self).ready(),
            final(self).cursors() == old(self).cursors(),
            final(self).devices() == old(self).devices(),
            final(self).messages() == match stored {
                Ok(m) => old(self).messages().push(m),
                Err(_) => old(self).messages(),
            },
    {
        match &mut self.db_pool {
            None => Err(DbError::NotInitialized),
            Some(tables) => {
                let count = tables.messages.len();
                let id: i32 = if count == 0 {
                    1
                } else {
                    match tables.messages[count - 1].id {
                        Some(last) => {
                            if last == i32::MAX {
                                return Err(DbError::Exhausted);
                            }
                            last + 1
                        },
                        None => {
                            return Err(DbError::Exhausted);
                        },
                    }
                };
                let copy = payload.clone();
                let stored = Message {
                    id: Some(id),
                    uuid: copy.uuid,
                    sender: copy.sender,
                    receiver: copy.receiver,
                    msg_type: copy.msg_type,
                    content: copy.content,
                    extra: copy.extra,
                    created_at: Some(now),
                    updated_at: Some(now),
                };
                tables.messages.push(stored.clone());
                Ok(stored)
            },
        }
    }

    /// The messages addressed to `receiver`, newest first.
    pub fn query_inbox(&self, receiver: &str) -> (found: Result<Vec<Message>, DbError>)
        ensures
            !self.ready() ==> found == Err::<Vec<Message>, DbError>(DbError::NotInitialized),
            self.ready() ==> {
                &&& found matches Ok(messages)
                &&& messages@ == inbox(self.messages(), receiver@)
            },
    {
        match &self.db_pool {
            None => Err(DbError::NotInitialized),
            Some(tables) => Ok(select(&tables.messages, receiver, None)),
        }
    }

    /// The messages addressed to `receiver` with an id above `after_id`,
    /// newest first.
    pub fn query_messages(&self, receiver: &str, after_id: i32) -> (found: Result<
        Vec<Message>,
        DbError,
    >)
        ensures
            !self.ready() ==> found == Err::<Vec<Message>, DbError>(DbError::NotInitialized),
            self.ready() ==> {
                &&& found matches Ok(messages)
                &&& messages@ == backlog(self.messages(), receiver@, after_id)
            },
    {
        match &self.db_pool {
            None => Err(DbError::NotInitialized),
            Some(tables) => Ok(select(&tables.messages, receiver, Some(after_id))),
        }
    }

    /// Sets the cursor of `receiver` to `last_id`, whether or not it had one.
    pub fn upsert_ack_cursor(&mut self, receiver: &str, last_id: Option<i32>) -> (done: Result<
        (),
        DbError,
    >)
        requires
            old(self).wf(),
        ensures
            final(self).wf(),
            final(self).ready() == old(self).ready(),
            final(self).messages() == old(self).messages(),
            final(self).devices() == old(self).devices(),
            !old(self).ready() ==> done == Err::<(), DbError>(DbError::NotInitialized),
            !old(self).ready() ==> final(self).cursors() == old(self).cursors(),
            old(self).ready() ==> done is Ok,
            old(self).ready() ==> final(self).cursors() == old(self).cursors().insert(
                receiver@,
                last_id,
            ),
    {
        match &mut self.db_pool {
            None => Err(DbError::NotInitialized),
            Some(tables) => {
                tables.acks.insert(owned(receiver), last_id);
                Ok(())
            },
        }
    }

    /// The cursor of `receiver`, if it has one.
    pub fn get_ack_cursor(&self, receiver: &str) -> (found: Result<Option<MessageAck>, DbError>)
        ensures
            !self.ready() ==> found == Err::<Option<MessageAck>, DbError>(DbError::NotInitialized),
            self.ready() ==> {
                &&& found matches Ok(ack)
                &&& match ack {
                    Some(a) => self.cursors().contains_key(receiver@) && a.receiver@ == receiver@
                        && a.last_ack == self.cursors()[receiver@],
                    None => !self.cursors().contains_key(receiver@),
                }
            },
    {
        match &self.db_pool {
            None => Err(DbError::NotInitialized),
            Some(tables) => match tables.acks.get(receiver) {
                Some(last_ack) => Ok(Some(MessageAck { receiver: owned(receiver), last_ack: *last_ack })),
                None => Ok(None),
            },
        }
    }
}

} // verus!
