//! Messages between devices and the acknowledgment cursor of each receiver.

use vstd::prelude::*;
use crate::db::{DBManager, DbError};
use crate::text::str_eq;

verus! {

/// What a message carries.
#[derive(Clone, Copy, Debug, PartialEq, Eq, Structural)]
pub enum MessageType {
    Text,
    Image,
    Video,
    File,
}

impl MessageType {
    /// The lower-case name under which the kind is written.
    pub open spec fn name(self) -> Seq<char> {
        match self {
            MessageType::Text => "text"@,
            MessageType::Image => "image"@,
            MessageType::Video => "video"@,
            MessageType::File => "file"@,
        }
    }

    /// The name under which the kind is stored.
    pub open spec fn stored_name(self) -> Seq<char> {
        match self {
            MessageType::Text => "Text"@,
            MessageType::Image => "Image"@,
            MessageType::Video => "Video"@,
            MessageType::File => "File"@,
        }
    }

    /// The name under which the kind is stored.
    pub fn as_stored(&self) -> (name: &'static str)
        ensures
            name@ == self.stored_name(),
    {
        match self {
            MessageType::Text => "Text",
            MessageType::Image => "Image",
            MessageType::Video => "Video",
            MessageType::File => "File",
        }
    }

    /// The kind that is stored as `name`, if there is one.
    pub fn from_stored(name: &str) -> (kind: Option<MessageType>)
        ensures
            match kind {
                Some(k) => k.stored_name() == name@,
                None => forall|k: MessageType| k.stored_name() != name@,
            },
    {
        if str_eq(name, "Text") {
            Some(MessageType::Text)
        } else if str_eq(name, "Image") {
            Some(MessageType::Image)
        } else if str_eq(name, "Video") {
            Some(MessageType::Video)
        } else if str_eq(name, "File") {
            Some(MessageType::File)
        } else {
            None
        }
    }

    /// The lower-case name under which the kind is written.
    pub fn as_str(&self) -> (name: &'static str)
        ensures
            name@ == self.name(),
    {
        match self {
            MessageType::Text => "text",
            MessageType::Image => "image",
            MessageType::Video => "video",
            MessageType::File => "file",
        }
    }

    /// The kind that is written as `name`, if there is one.
    pub fn from_name(name: &str) -> (kind: Option<MessageType>)
        ensures
            match kind {
                Some(k) => k.name() == name@,
                None => forall|k: MessageType| k.name() != name@,
            },
    {
        if str_eq(name, "text") {
            Some(MessageType::Text)
        } else if str_eq(name, "image") {
            Some(MessageType::Image)
        } else if str_eq(name, "video") {
            Some(MessageType::Video)
        } else if str_eq(name, "file") {
            Some(MessageType::File)
        } else {
            None
        }
    }
}

/// How far a message has come.
#[derive(Clone, Copy, Debug, PartialEq, Eq, Structural)]
pub enum MessageStatus {
    Initial,
    Received,
    Readed,
}

impl MessageStatus {
    /// The number under which the status is stored: 1, 2 or 3.
    pub fn code(&self) -> (code: i32)
        ensures
            code == match self {
                MessageStatus::Initial => 1int,
                MessageStatus::Received => 2int,
                MessageStatus::Readed => 3int,
            },
    {
        match self {
            MessageStatus::Initial => 1,
            MessageStatus::Received => 2,
            MessageStatus::Readed => 3,
        }
    }
}

/// A message from one device to another. A stored message has an id, which
/// grows from one message to the next; times are microseconds since the
/// epoch.
#[derive(Debug)]
pub struct Message {
    pub id: Option<i32>,
    pub uuid: String,
    pub sender: String,
    pub receiver: String,
    pub msg_type: MessageType,
    pub content: Option<String>,
    pub extra: Option<String>,
    pub created_at: Option<i64>,
    pub updated_at: Option<i64>,
}

impl Clone for Message {
    fn clone(&self) -> (copy: Self)
        ensures
            copy == *self,
    {
        Message {
            id: self.id,
            uuid: self.uuid.clone(),
            sender: self.sender.clone(),
            receiver: self.receiver.clone(),
            msg_type: self.msg_type,
            content: match &self.content {
                Some(c) => Some(c.clone()),
                None => None,
            },
            extra: match &self.extra {
                Some(e) => Some(e.clone()),
                None => None,
            },
            created_at: self.created_at,
            updated_at: self.updated_at,
        }
    }
}

/// Whether the ids of `messages` are all there and grow from each message to
/// the next, the first being at least 1.
pub open spec fn ids_ascend(messages: Seq<Message>) -> bool {
    &&& forall|i: int| 0 <= i < messages.len() ==> (#[trigger] messages[i]).id is Some
    &&& forall|i: int| 0 <= i < messages.len() ==> (#[trigger] messages[i]).id->0 > i
    &&& forall|i: int, j: int|
        0 <= i < j < messages.len() ==> (#[trigger] messages[i]).id->0 < (
        #[trigger] messages[j]).id->0
}

/// Whether a query selects the message: it is addressed to `receiver` and,
/// where `after_id` is given, has an id above it.
pub open spec fn selected(m: Message, receiver: Seq<char>, after_id: Option<i32>) -> bool {
    &&& m.receiver@ == receiver
    &&& after_id matches Some(bound) ==> m.id is Some && m.id->0 > bound
}

/// The test that `selected` makes, as a function of the message.
pub open spec fn selector(receiver: Seq<char>, after_id: Option<i32>) -> spec_fn(Message) -> bool {
    |m: Message| selected(m, receiver, after_id)
}

/// The messages of `messages`, oldest first, that are addressed to
/// `receiver`, newest first.
pub open spec fn inbox(messages: Seq<Message>, receiver: Seq<char>) -> Seq<Message> {
    messages.filter(selector(receiver, None)).reverse()
}

/// The messages of `messages`, oldest first, that are addressed to
/// `receiver` and have an id above `after_id`, newest first.
pub open spec fn backlog(messages: Seq<Message>, receiver: Seq<char>, after_id: i32) -> Seq<
    Message,
> {
    messages.filter(selector(receiver, Some(after_id))).reverse()
}

/// Whether the ids of `messages` fall from each message to the next.
pub open spec fn ids_descend(messages: Seq<Message>) -> bool {
    forall|i: int, j: int|
        0 <= i < j < messages.len() ==> (#[trigger] messages[i]).id->0 > (
        #[trigger] messages[j]).id->0
}

/// A selection keeps the order of the ids.
proof fn lemma_filter_keeps_order(messages: Seq<Message>, keep: spec_fn(Message) -> bool)
    requires
        ids_ascend(messages),
    ensures
        forall|i: int, j: int|
            0 <= i < j < messages.filter(keep).len() ==> (#[trigger] messages.filter(keep)[i]).id->0
                < (#[trigger] messages.filter(keep)[j]).id->0,
    decreases messages.len(),
{
    reveal(Seq::filter);
    if messages.len() > 0 {
        let before = messages.drop_last();
        let last = messages.last();
        assert(ids_ascend(before)) by {
            assert forall|i: int| 0 <= i < before.len() implies (#[trigger] before[i]).id is Some
                && before[i].id->0 > i by {
                assert(before[i] == messages[i]);
            }
            assert forall|i: int, j: int| 0 <= i < j < before.len() implies (
            #[trigger] before[i]).id->0 < (#[trigger] before[j]).id->0 by {
                assert(before[i] == messages[i]);
                assert(before[j] == messages[j]);
            }
        }
        lemma_filter_keeps_order(before, keep);
        let kept = before.filter(keep);
        if keep(last) {
            assert(messages.filter(keep) == kept.push(last));
            assert forall|i: int| 0 <= i < kept.len() implies (#[trigger] kept[i]).id->0
                < last.id->0 by {
                assert(kept.contains(kept[i]));
                before.lemma_filter_contains_rev(keep, kept[i]);
                let k = choose|k: int| 0 <= k < before.len() && before[k] == kept[i];
                assert(messages[k] == kept[i]);
                assert(messages[messages.len() - 1] == last);
            }
        } else {
            assert(messages.filter(keep) == kept);
        }
    }
}

/// The replay for a receiver holds exactly the stored messages that are
/// addressed to it and lie above the cursor, the newest first: ids fall
/// along it.
pub proof fn law_backlog_is_newest_first(messages: Seq<Message>, receiver: Seq<char>, after_id: i32)
    requires
        ids_ascend(messages),
    ensures
        ids_descend(backlog(messages, receiver, after_id)),
        forall|i: int|
            0 <= i < backlog(messages, receiver, after_id).len() ==> {
                &&& selected(
                    #[trigger] backlog(messages, receiver, after_id)[i],
                    receiver,
                    Some(after_id),
                )
                &&& messages.contains(backlog(messages, receiver, after_id)[i])
            },
        forall|k: int|
            0 <= k < messages.len() && selected(#[trigger] messages[k], receiver, Some(after_id))
                ==> backlog(messages, receiver, after_id).contains(messages[k]),
{
    let keep = selector(receiver, Some(after_id));
    let kept = messages.filter(keep);
    let found = backlog(messages, receiver, after_id);
    lemma_filter_keeps_order(messages, keep);
    assert forall|i: int| 0 <= i < found.len() implies selected(
        #[trigger] found[i],
        receiver,
        Some(after_id),
    ) && messages.contains(found[i]) by {
        let at = kept.len() - 1 - i;
        assert(found[i] == kept[at]);
        messages.lemma_filter_pred(keep, at);
        assert(kept.contains(kept[at]));
        messages.lemma_filter_contains_rev(keep, kept[at]);
    }
    assert forall|k: int|
        0 <= k < messages.len() && selected(
            #[trigger] messages[k],
            receiver,
            Some(after_id),
        ) implies found.contains(messages[k]) by {
        messages.lemma_filter_contains(keep, k);
        let at = choose|at: int| 0 <= at < kept.len() && kept[at] == messages[k];
        assert(found[kept.len() - 1 - at] == kept[at]);
    }
    assert forall|i: int, j: int| 0 <= i < j < found.len() implies (#[trigger] found[i]).id->0 > (
    #[trigger] found[j]).id->0 by {
        assert(found[i] == kept[kept.len() - 1 - i]);
        assert(found[j] == kept[kept.len() - 1 - j]);
    }
}

/// The watermark that a stored cursor stands for: the acknowledged id, or 0
/// where there is no cursor or it holds no id.
pub open spec fn watermark(cursor: Option<Option<i32>>) -> i32 {
    match cursor {
        Some(Some(id)) => id,
        _ => 0,
    }
}

/// Page `current` (counted from 1) of `all`, with `page_size` items a page.
/// There is no page 0: it is empty.
pub open spec fn page(all: Seq<Message>, current: u32, page_size: u32) -> Seq<Message> {
    let skipped = (current - 1) * page_size;
    if current == 0 || skipped >= all.len() {
        Seq::empty()
    } else if skipped + page_size >= all.len() {
        all.subrange(skipped, all.len() as int)
    } else {
        all.subrange(skipped, skipped + page_size)
    }
}

/// The number of messages that lie before page `current`, with
/// `page_size` items a page; there is none for page 0.
pub open spec fn skipped_before(current: u32, page_size: u32) -> Option<u64> {
    if current == 0 {
        None
    } else {
        Some(((current - 1) * page_size) as u64)
    }
}

impl Message {
    /// The number of messages to skip for page `current`, with `page_size`
    /// items a page. Pages count from 1: for page 0 there is none.
    pub fn page_offset(current: u32, page_size: u32) -> (skipped: Option<u64>)
        ensures
            skipped == skipped_before(current, page_size),
            skipped matches Some(n) ==> n == (current - 1) * page_size,
    {
        if current == 0 {
            return None;
        }
        assert((current - 1) * page_size <= 0xffff_ffff * 0xffff_ffff) by (nonlinear_arith)
            requires
                1 <= current <= 0xffff_ffff,
                0 <= page_size <= 0xffff_ffff,
        ;
        Some((current as u64 - 1) * (page_size as u64))
    }

    /// Stores the message. The store gives it the next id and the time
    /// `now`; everything else is taken from `self`. Nothing else in the
    /// store changes.
    pub fn create(&self, db: &mut DBManager, now: i64) -> (stored: Result<Message, DbError>)
        requires
            old(db).wf(),
        ensures
            final(db).wf(),
            stored == old(db).inserted(*self, now),
            final(db).ready() == old(db).ready(),
            final(db).cursors() == old(db).cursors(),
            final(db).devices() == old(db).devices(),
            final(db).messages() == match stored {
                Ok(m) => old(db).messages().push(m),
                Err(_) => old(db).messages(),
            },
    {
        db.insert_message(self, now)
    }

    /// One page of the messages addressed to `receiver`, newest first, with
    /// the number of all of them. Pages count from 1; page 0 is empty.
    pub fn get_messages(db: &DBManager, receiver: &str, current: u32, page_size: u32) -> (found:
        Result<PaginatedMessages, DbError>)
        requires
            db.wf(),
        ensures
            !db.ready() ==> found == Err::<PaginatedMessages, DbError>(DbError::NotInitialized),
            db.ready() ==> {
                &&& found matches Ok(p)
                &&& p.messages@ == page(inbox(db.messages(), receiver@), current, page_size)
                &&& p.total == inbox(db.messages(), receiver@).len()
                &&& p.current == current
                &&& p.page_size == page_size
            },
    {
        let all = match db.query_inbox(receiver) {
            Ok(all) => all,
            Err(e) => {
                return Err(e);
            },
        };
        let total = all.len();
        proof {
            let stored = db.messages();
            stored.lemma_filter_len(selector(receiver@, None));
            if stored.len() > 0 {
                assert(stored[stored.len() - 1].id->0 > stored.len() - 1);
            }
            assert(total <= i32::MAX);
        }
        let skipped: u64 = match Message::page_offset(current, page_size) {
            Some(skipped) => skipped,
            None => 0,
        };
        let mut messages: Vec<Message> = Vec::new();
        if current >= 1 && skipped < total as u64 {
            let start = skipped as usize;
            let end = if skipped + page_size as u64 >= total as u64 {
                total
            } else {
                start + page_size as usize
            };
            let mut i = start;
            while i < end
                invariant
                    start <= i <= end <= all.len(),
                    messages@ == all@.subrange(start as int, i as int),
                decreases end - i,
            {
                messages.push(all[i].clone());
                assert(all@.subrange(start as int, i + 1) =~= all@.subrange(
                    start as int,
                    i as int,
                ).push(all@[i as int]));
                i += 1;
            }
        }
        assert(messages@ =~= page(all@, current, page_size));
        Ok(PaginatedMessages { messages, total: total as i64, current, page_size })
    }

    /// The messages addressed to `receiver` that it has not acknowledged:
    /// those with an id above its cursor, newest first. The cursor stays
    /// where it is.
    pub fn get_offline_messages(db: &DBManager, receiver: &str) -> (found: Result<
        Vec<Message>,
        DbError,
    >)
        requires
            db.wf(),
        ensures
            !db.ready() ==> found == Err::<Vec<Message>, DbError>(DbError::NotInitialized),
            db.ready() ==> {
                &&& found matches Ok(messages)
                &&& messages@ == backlog(
                    db.messages(),
                    receiver@,
                    watermark(db.cursors().get(receiver@)),
                )
            },
    {
        let cursor = match MessageAck::get_last_ack(db, receiver) {
            Ok(cursor) => cursor,
            Err(e) => {
                return Err(e);
            },
        };
        db.query_messages(receiver, MessageAck::watermark(&cursor))
    }
}

/// The acknowledgment cursor of a receiver: the highest message id that it
/// is known to have.
#[derive(Debug)]
pub struct MessageAck {
    pub receiver: String,
    pub last_ack: Option<i32>,
}

impl MessageAck {
    /// The cursor of `receiver` at the id `last_ack`.
    pub fn new(receiver: String, last_ack: Option<i32>) -> (ack: Self)
        ensures
            ack.receiver == receiver,
            ack.last_ack == last_ack,
    {
        MessageAck { receiver, last_ack }
    }

    /// The id above which the replay for a receiver starts, given the
    /// receiver's cursor, if it has one: the acknowledged id, or 0 where
    /// there is no cursor or it holds no id.
    pub fn watermark(cursor: &Option<MessageAck>) -> (after_id: i32)
        ensures
            after_id == watermark(
                match cursor {
                    Some(ack) => Some(ack.last_ack),
                    None => None,
                },
            ),
    {
        match cursor {
            Some(ack) => match ack.last_ack {
                Some(id) => id,
                None => 0,
            },
            None => 0,
        }
    }

    /// Stores the cursor, in place of the one that the receiver had.
    /// Messages, devices and the cursors of other receivers stay as they
    /// are.
    pub fn received(&self, db: &mut DBManager) -> (done: Result<(), DbError>)
        requires
            old(db).wf(),
        ensures
            final(db).wf(),
            final(db).ready() == old(db).ready(),
            final(db).messages() == old(db).messages(),
            final(db).devices() == old(db).devices(),
            !old(db).ready() ==> done == Err::<(), DbError>(DbError::NotInitialized),
            !old(db).ready() ==> final(db).cursors() == old(db).cursors(),
            old(db).ready() ==> done is Ok,
            old(db).ready() ==> final(db).cursors() == old(db).cursors().insert(
                self.receiver@,
                self.last_ack,
            ),
    {
        db.upsert_ack_cursor(self.receiver.as_str(), self.last_ack)
    }

    /// The cursor of `receiver`, if it has one.
    pub fn get_last_ack(db: &DBManager, receiver: &str) -> (found: Result<
        Option<MessageAck>,
        DbError,
    >)
        requires
            db.wf(),
        ensures
            !db.ready() ==> found == Err::<Option<MessageAck>, DbError>(DbError::NotInitialized),
            db.ready() ==> {
                &&& found matches Ok(ack)
                &&& match ack {
                    Some(a) => db.cursors().contains_key(receiver@) && a.receiver@ == receiver@
                        && a.last_ack == db.cursors()[receiver@],
                    None => !db.cursors().contains_key(receiver@),
                }
            },
    {
        db.get_ack_cursor(receiver)
    }
}

/// One page of messages, with the number of all messages it was cut from.
#[derive(Debug)]
pub struct PaginatedMessages {
    pub messages: Vec<Message>,
    pub total: i64,
    pub current: u32,
    pub page_size: u32,
}

} // verus!
