//! The peer table: which devices are connected right now, and on which
//! socket each of them is reached.

use dashmap::DashMap;
use vstd::prelude::*;

verus! {

/// The concurrent map `dashmap::DashMap`. What one holds is spoken of
/// through `peer_entries`.
#[verifier::external_type_specification]
#[verifier::external_body]
#[verifier::reject_recursive_types(K)]
#[verifier::reject_recursive_types(V)]
#[verifier::reject_recursive_types(S)]
pub struct ExDashMap<K, V, S>(DashMap<K, V, S>);

/// The connected devices as a map: each device's id leads to the id of the
/// socket it is reached on.
pub type Peers = Map<Seq<char>, Seq<char>>;

/// What a table holds: for each connected device's id, the id of its socket.
pub uninterp spec fn peer_entries(table: DashMap<String, String>) -> Map<Seq<char>, Seq<char>>;

/// `DashMap::new`: a table without entries.
#[verifier::external_body]
fn table_new() -> (table: DashMap<String, String>)
    ensures
        peer_entries(table) == Peers::empty(),
{
    DashMap::new()
}

/// `DashMap::get`, with the value copied out: the socket stored for the
/// device, if there is one.
#[verifier::external_body]
fn table_get(table: &DashMap<String, String>, client_id: &str) -> (socket_id: Option<String>)
    ensures
        match socket_id {
            Some(s) => peer_entries(*table).contains_key(client_id@) && s@ == peer_entries(
                *table,
            )[client_id@],
            None => !peer_entries(*table).contains_key(client_id@),
        },
{
    table.get(client_id).map(|entry| entry.value().clone())
}

/// `DashMap::insert`: afterwards the device is stored with the given socket,
/// and every other entry is as before.
#[verifier::external_body]
fn table_insert(table: &mut DashMap<String, String>, client_id: String, socket_id: String)
    ensures
        peer_entries(*final(table)) == peer_entries(*old(table)).insert(client_id@, socket_id@),
{
    table.insert(client_id, socket_id);
}

/// `DashMap::remove`: the device's entry is gone and handed back, if there
/// was one; every other entry is as before.
#[verifier::external_body]
fn table_remove(table: &mut DashMap<String, String>, client_id: &str) -> (socket_id: Option<
    String,
>)
    ensures
        peer_entries(*final(table)) == peer_entries(*old(table)).remove(client_id@),
        match socket_id {
            Some(s) => peer_entries(*old(table)).contains_key(client_id@) && s@ == peer_entries(
                *old(table),
            )[client_id@],
            None => !peer_entries(*old(table)).contains_key(client_id@),
        },
{
    table.remove(client_id).map(|(_, socket_id)| socket_id)
}

/// `DashMap::contains_key`.
#[verifier::external_body]
fn table_contains(table: &DashMap<String, String>, client_id: &str) -> (found: bool)
    ensures
        found == peer_entries(*table).contains_key(client_id@),
{
    table.contains_key(client_id)
}

/// A connected device: the socket it is reached on, and its id.
#[derive(Debug)]
pub struct Client {
    pub socket_id: String,
    pub client_id: String,
}

impl Client {
    /// The device `client_id`, reached on the socket `socket_id`.
    pub fn new(socket_id: String, client_id: String) -> (client: Self)
        ensures
            client.socket_id == socket_id,
            client.client_id == client_id,
    {
        Client { socket_id, client_id }
    }
}

/// The peer table, keyed by device id.
pub struct Clients {
    table: DashMap<String, String>,
}

impl View for Clients {
    type V = Peers;

    closed spec fn view(&self) -> Peers {
        peer_entries(self.table)
    }
}

/// Whether `found` is what a lookup of `client_id` in `peers` gives.
pub open spec fn is_lookup(
    peers: Peers,
    client_id: Seq<char>,
    found: Option<Client>,
) -> bool {
    match found {
        Some(client) => peers.contains_key(client_id) && client.client_id@ == client_id
            && client.socket_id@ == peers[client_id],
        None => !peers.contains_key(client_id),
    }
}

impl Default for Clients {
    fn default() -> (clients: Self)
        ensures
            clients@ == Peers::empty(),
    {
        Clients::new()
    }
}

impl Clients {
    /// A table with nobody connected.
    pub fn new() -> (clients: Self)
        ensures
            clients@ == Peers::empty(),
    {
        Clients { table: table_new() }
    }

    /// The connected device with this id, if it is connected.
    pub fn get(&self, client_id: &str) -> (found: Option<Client>)
        ensures
            is_lookup(self@, client_id@, found),
    {
        match table_get(&self.table, client_id) {
            Some(socket_id) => Some(Client { socket_id, client_id: client_id.to_owned() }),
            None => None,
        }
    }

    /// Stores the device under its id, in place of an entry it may have had.
    pub fn add(&mut self, client: Client)
        ensures
            final(self)@ == old(self)@.insert(client.client_id@, client.socket_id@),
    {
        table_insert(&mut self.table, client.client_id, client.socket_id);
    }

    /// Takes the device with this id out of the table and returns it, if it
    /// was connected.
    pub fn remove(&mut self, client_id: &str) -> (removed: Option<Client>)
        ensures
            final(self)@ == old(self)@.remove(client_id@),
            is_lookup(old(self)@, client_id@, removed),
    {
        match table_remove(&mut self.table, client_id) {
            Some(socket_id) => Some(Client { socket_id, client_id: client_id.to_owned() }),
            None => None,
        }
    }

    /// Whether a device with this id is connected.
    pub fn contains(&self, client_id: &str) -> (found: bool)
        ensures
            found == self@.contains_key(client_id@),
    {
        table_contains(&self.table, client_id)
    }
}

} // verus!
