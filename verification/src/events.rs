//! The real-time channel: who may connect, where a message goes once it is
//! stored, and what an acknowledgment does to the receiver's cursor.
//!
//! Sending and waiting are the caller's: the functions here decide. A sent
//! message is stored first; it is pushed only if its receiver is connected;
//! the receiver's cursor moves only on an acknowledgment with status 200
//! that arrived within `ACK_TIMEOUT_SECS`.

use vstd::prelude::*;
use crate::client;
use crate::db::{DBManager, DbError};
use crate::message::{backlog, watermark, Message, MessageAck};
use crate::store::{Client, Clients, Peers};
use crate::text::{joined, owned};

verus! {

/// Seconds that a pushed message waits for its acknowledgment.
pub const ACK_TIMEOUT_SECS: u64 = 6;

/// Status of an acknowledgment that confirms the receipt.
pub const STATUS_OK: u16 = 200;

/// Status of the reply to a message that could not be stored.
pub const STATUS_INTERNAL_SERVER_ERROR: u16 = 500;

/// What a connecting device presents.
#[derive(Debug)]
pub struct Auth {
    pub fingerprint: Option<String>,
}

/// The reply to a pushed or a sent message.
#[derive(Debug)]
pub struct AckResponse {
    pub status_code: u16,
    pub message: Option<String>,
}

/// Why a connection was refused.
#[derive(Clone, Copy, Debug, PartialEq, Eq, Structural)]
pub enum AuthError {
    /// No token was presented, or no device is registered under it.
    Unauthorized,
    /// The registry could not be asked.
    Store(DbError),
}

impl AuthError {
    /// The error in words.
    pub fn message(&self) -> (text: String)
        ensures
            text@ == match self {
                AuthError::Unauthorized => "Unauthorized"@,
                AuthError::Store(e) => e.message_text(),
            },
    {
        match self {
            AuthError::Unauthorized => owned("Unauthorized"),
            AuthError::Store(e) => e.message(),
        }
    }
}

/// Where a stored message goes next.
#[derive(Debug)]
pub enum Delivery {
    /// The receiver is not connected: the message waits for the replay.
    Stored(Message),
    /// The receiver is connected on this socket: the message is pushed.
    Push { socket_id: String, message: Message },
}

/// How the wait for an acknowledgment ended.
#[derive(Debug)]
pub enum AckOutcome {
    /// The receiver replied in time.
    Replied(AckResponse),
    /// No reply came within `ACK_TIMEOUT_SECS`.
    TimedOut,
    /// The push failed.
    Failed,
}

impl AckOutcome {
    /// Whether the outcome confirms the receipt: a reply with status 200.
    pub open spec fn confirms(self) -> bool {
        self matches AckOutcome::Replied(reply) && reply.status_code == STATUS_OK
    }
}

/// The peers after a device asked to be registered on a socket: a device
/// that is connected already keeps its entry.
pub open spec fn registered(peers: Peers, client_id: Seq<char>, socket_id: Seq<char>) -> Peers {
    if peers.contains_key(client_id) {
        peers
    } else {
        peers.insert(client_id, socket_id)
    }
}

/// Whether `delivery` is where `stored` goes with these peers connected.
pub open spec fn is_delivery(peers: Peers, stored: Message, delivery: Delivery) -> bool {
    match delivery {
        Delivery::Stored(message) => message == stored && !peers.contains_key(stored.receiver@),
        Delivery::Push { socket_id, message } => message == stored && peers.contains_key(
            stored.receiver@,
        ) && socket_id@ == peers[stored.receiver@],
    }
}

/// The cursors after the wait for the acknowledgment of `message` ended
/// with `outcome`: the receiver's cursor is the message's id if the outcome
/// confirms the receipt, and nothing changes otherwise.
pub open spec fn cursors_after(
    cursors: Map<Seq<char>, Option<i32>>,
    message: Message,
    outcome: AckOutcome,
) -> Map<Seq<char>, Option<i32>> {
    if outcome.confirms() {
        cursors.insert(message.receiver@, message.id)
    } else {
        cursors
    }
}

/// Registering a device a second time changes nothing, on whatever socket
/// it asks, and storing the same device twice leaves one entry for it.
pub proof fn law_registration_is_idempotent(
    peers: Peers,
    client_id: Seq<char>,
    first: Seq<char>,
    second: Seq<char>,
)
    ensures
        registered(registered(peers, client_id, first), client_id, second) == registered(
            peers,
            client_id,
            first,
        ),
        peers.insert(client_id, first).insert(client_id, first) == peers.insert(client_id, first),
        peers.dom().finite() ==> peers.insert(client_id, first).insert(client_id, second).dom().len()
            == peers.insert(client_id, first).dom().len(),
{
    assert(peers.insert(client_id, first).insert(client_id, first) =~= peers.insert(
        client_id,
        first,
    ));
    assert(peers.insert(client_id, first).insert(client_id, second).dom() =~= peers.insert(
        client_id,
        first,
    ).dom());
}

/// A message that was stored while its receiver was not connected is not
/// pushed, and the next replay for the receiver starts with it, provided
/// its id is above the receiver's cursor.
pub proof fn law_offline_message_is_replayed(
    messages: Seq<Message>,
    cursors: Map<Seq<char>, Option<i32>>,
    peers: Peers,
    stored: Message,
    delivery: Delivery,
)
    requires
        !peers.contains_key(stored.receiver@),
        is_delivery(peers, stored, delivery),
        stored.id is Some,
        stored.id->0 > watermark(cursors.get(stored.receiver@)),
    ensures
        delivery is Stored,
        backlog(messages.push(stored), stored.receiver@, watermark(cursors.get(stored.receiver@)))
            .len() > 0,
        backlog(messages.push(stored), stored.receiver@, watermark(cursors.get(stored.receiver@)))
            .first() == stored,
{
    let after_id = watermark(cursors.get(stored.receiver@));
    let keep = crate::message::selector(stored.receiver@, Some(after_id));
    messages.lemma_filter_push(stored, keep);
    assert(keep(stored));
    let kept = messages.push(stored).filter(keep);
    assert(kept == messages.filter(keep).push(stored));
    assert(kept.reverse()[0] == kept[kept.len() - 1]);
}

impl AckResponse {
    /// The reply to a sender whose message could not be stored, with the
    /// reason in words.
    pub fn failure(reason: &str) -> (reply: Self)
        ensures
            reply.status_code == STATUS_INTERNAL_SERVER_ERROR,
            reply.message is Some,
            reply.message->0@ == "Failed to create message: "@ + reason@,
    {
        AckResponse {
            status_code: STATUS_INTERNAL_SERVER_ERROR,
            message: Some(joined("Failed to create message: ", reason)),
        }
    }
}

/// Where the stored message goes: to the socket of its receiver if the
/// receiver is connected, nowhere otherwise.
pub fn route(clients: &Clients, stored: Message) -> (delivery: Delivery)
    ensures
        is_delivery(clients@, stored, delivery),
{
    match clients.get(stored.receiver.as_str()) {
        Some(peer) => Delivery::Push { socket_id: peer.socket_id, message: stored },
        None => Delivery::Stored(stored),
    }
}

/// The cursor to store once the wait for the acknowledgment of `message`
/// ended: the message's id for its receiver if the outcome confirms the
/// receipt, none otherwise.
pub fn confirm(message: &Message, outcome: &AckOutcome) -> (ack: Option<MessageAck>)
    ensures
        match ack {
            Some(a) => outcome.confirms() && a.receiver@ == message.receiver@ && a.last_ack
                == message.id,
            None => !outcome.confirms(),
        },
{
    match outcome {
        AckOutcome::Replied(reply) => {
            if reply.status_code == STATUS_OK {
                Some(MessageAck::new(message.receiver.clone(), message.id))
            } else {
                None
            }
        },
        _ => None,
    }
}

/// Handles a sent message: stores it, whoever is connected, and says where
/// it goes next. A message that could not be stored goes nowhere.
pub fn message_handler(db: &mut DBManager, clients: &Clients, payload: &Message, now: i64) -> (next:
    Result<Delivery, DbError>)
    requires
        old(db).wf(),
    ensures
        final(db).wf(),
        final(db).ready() == old(db).ready(),
        final(db).cursors() == old(db).cursors(),
        final(db).devices() == old(db).devices(),
        match next {
            Ok(delivery) => {
                &&& old(db).inserted(*payload, now) matches Ok(stored)
                &&& is_delivery(clients@, stored, delivery)
                &&& final(db).messages() == old(db).messages().push(stored)
            },
            Err(e) => {
                &&& old(db).inserted(*payload, now) == Err::<Message, DbError>(e)
                &&& final(db).messages() == old(db).messages()
            },
        },
{
    match payload.create(db, now) {
        Ok(stored) => Ok(route(clients, stored)),
        Err(e) => Err(e),
    }
}

/// Ends the delivery of `message`: on an outcome that confirms the receipt
/// the receiver's cursor becomes the message's id and `true` is returned; on
/// any other outcome the cursor stays where it is. Stored messages are never
/// touched.
pub fn settle(db: &mut DBManager, message: &Message, outcome: &AckOutcome) -> (advanced: Result<
    bool,
    DbError,
>)
    requires
        old(db).wf(),
    ensures
        final(db).wf(),
        final(db).ready() == old(db).ready(),
        final(db).messages() == old(db).messages(),
        final(db).devices() == old(db).devices(),
        outcome.confirms() && !old(db).ready() ==> advanced == Err::<bool, DbError>(
            DbError::NotInitialized,
        ),
        outcome.confirms() && old(db).ready() ==> advanced == Ok::<bool, DbError>(true),
        !outcome.confirms() ==> advanced == Ok::<bool, DbError>(false),
        final(db).cursors() == if old(db).ready() {
            cursors_after(old(db).cursors(), *message, *outcome)
        } else {
            old(db).cursors()
        },
{
    match confirm(message, outcome) {
        Some(ack) => match ack.received(db) {
            Ok(()) => Ok(true),
            Err(e) => Err(e),
        },
        None => Ok(false),
    }
}

/// Enters a device that the registry knows into the peer table, on the
/// socket it connected with. A device that is connected already keeps its
/// entry.
pub fn register(clients: &mut Clients, socket_id: String, device: &client::Client)
    ensures
        final(clients)@ == registered(old(clients)@, device.id@, socket_id@),
{
    if !clients.contains(device.id.as_str()) {
        clients.add(Client::new(socket_id, device.id.clone()));
    }
}

/// The token that a connecting device presents; a connection that
/// presents none is refused.
pub fn presented(auth: Auth) -> (token: Result<String, AuthError>)
    ensures
        match auth.fingerprint {
            Some(fingerprint) => token == Ok::<String, AuthError>(fingerprint),
            None => token == Err::<String, AuthError>(AuthError::Unauthorized),
        },
{
    match auth.fingerprint {
        Some(fingerprint) => Ok(fingerprint),
        None => Err(AuthError::Unauthorized),
    }
}

/// Decides on a connection once the registry was asked for its token,
/// `found` being the device that is registered under it, if there is one:
/// a registered device is entered into the peer table on the socket it
/// connected with; anything else is refused, and the peer table stays as
/// it is.
pub fn enter(clients: &mut Clients, socket_id: String, found: Option<client::Client>) -> (admitted:
    Result<(), AuthError>)
    ensures
        match found {
            Some(device) => admitted is Ok && final(clients)@ == registered(
                old(clients)@,
                device.id@,
                socket_id@,
            ),
            None => admitted == Err::<(), AuthError>(AuthError::Unauthorized) && final(clients)@
                == old(clients)@,
        },
{
    match found {
        Some(device) => {
            register(clients, socket_id, &device);
            Ok(())
        },
        None => Err(AuthError::Unauthorized),
    }
}

/// Admits a connection or refuses it, before anything is relayed. The
/// connection is admitted exactly if it presents a token under which a
/// device is registered; the device is then entered into the peer table.
/// A refused connection leaves the peer table as it is.
pub fn authenticate_middleware(
    clients: &mut Clients,
    db: &DBManager,
    socket_id: String,
    auth: Auth,
) -> (admitted: Result<(), AuthError>)
    requires
        db.wf(),
    ensures
        !db.ready() && auth.fingerprint is Some ==> admitted == Err::<(), AuthError>(
            AuthError::Store(DbError::NotInitialized),
        ),
        auth.fingerprint is None || (db.ready() && !db.devices().contains_key(
            auth.fingerprint->0@,
        )) ==> admitted == Err::<(), AuthError>(AuthError::Unauthorized),
        auth.fingerprint is Some && db.ready() && db.devices().contains_key(auth.fingerprint->0@)
            ==> admitted is Ok,
        final(clients)@ == if admitted is Ok {
            registered(
                old(clients)@,
                db.devices()[auth.fingerprint->0@].id@,
                socket_id@,
            )
        } else {
            old(clients)@
        },
{
    let fingerprint = match presented(auth) {
        Ok(fingerprint) => fingerprint,
        Err(e) => {
            return Err(e);
        },
    };
    match client::Client::get_by_id(db, fingerprint.as_str()) {
        Ok(found) => enter(clients, socket_id, found),
        Err(e) => Err(AuthError::Store(e)),
    }
}

/// Takes a device that disconnected out of the peer table. Stored messages
/// and cursors are not its business.
pub fn on_disconnect(clients: &mut Clients, client_id: &str)
    ensures
        final(clients)@ == old(clients)@.remove(client_id@),
{
    clients.remove(client_id);
}

} // verus!
