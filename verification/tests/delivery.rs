use synclan::client::{self, Bound};
use synclan::db::{DBManager, DbError};
use synclan::events::{
    authenticate_middleware, confirm, enter, message_handler, on_disconnect, presented, register,
    route, settle, AckOutcome, AckResponse, Auth, AuthError, Delivery, ACK_TIMEOUT_SECS,
};
use synclan::message::{Message, MessageAck, MessageStatus, MessageType};
use synclan::store::{Client, Clients};

fn payload(sender: &str, receiver: &str, content: &str) -> Message {
    Message {
        id: None,
        uuid: format!("uuid-{content}"),
        sender: sender.to_string(),
        receiver: receiver.to_string(),
        msg_type: MessageType::Text,
        content: Some(content.to_string()),
        extra: None,
        created_at: None,
        updated_at: None,
    }
}

fn device(id: &str) -> client::Client {
    client::Client {
        id: id.to_string(),
        name: Some(format!("device {id}")),
        avatar: None,
        auto_message_clean: None,
        created_at: None,
        updated_at: None,
    }
}

fn ready_db() -> DBManager {
    let mut db = DBManager::new();
    db.init();
    db
}

fn ids(messages: &[Message]) -> Vec<i32> {
    messages.iter().map(|m| m.id.unwrap()).collect()
}

fn ok_reply() -> AckOutcome {
    AckOutcome::Replied(AckResponse { status_code: 200, message: None })
}

#[test]
fn store_reports_not_initialized() {
    let mut db = DBManager::new();
    assert!(!db.is_ready());
    assert_eq!(payload("a", "b", "x").create(&mut db, 1).err(), Some(DbError::NotInitialized));
    assert_eq!(Message::get_offline_messages(&db, "b").err(), Some(DbError::NotInitialized));
    assert_eq!(Message::get_messages(&db, "b", 1, 10).err(), Some(DbError::NotInitialized));
    assert_eq!(MessageAck::new("b".to_string(), Some(1)).received(&mut db).err(), Some(DbError::NotInitialized));
    assert_eq!(MessageAck::get_last_ack(&db, "b").err(), Some(DbError::NotInitialized));
    assert_eq!(client::Client::get_by_id(&db, "b").err(), Some(DbError::NotInitialized));
    assert_eq!(device("b").create(&mut db, 1).err(), Some(DbError::NotInitialized));
    assert_eq!(device("b").patch(&mut db, 1).err(), Some(DbError::NotInitialized));
    assert_eq!(DbError::NotInitialized.message(), "SQLite connection pool has not been initialized");
    db.init();
    assert!(db.is_ready());
    assert!(payload("a", "b", "x").create(&mut db, 1).is_ok());
    // a second init keeps what is stored
    db.init();
    assert_eq!(Message::get_offline_messages(&db, "b").unwrap().len(), 1);
}

#[test]
fn stored_messages_get_growing_ids() {
    let mut db = ready_db();
    let first = payload("a", "b", "one").create(&mut db, 10).unwrap();
    let second = payload("a", "c", "two").create(&mut db, 20).unwrap();
    let third = payload("c", "b", "three").create(&mut db, 30).unwrap();
    assert_eq!(first.id, Some(1));
    assert_eq!(second.id, Some(2));
    assert_eq!(third.id, Some(3));
    assert_eq!(first.uuid, "uuid-one");
    assert_eq!(first.sender, "a");
    assert_eq!(first.receiver, "b");
    assert_eq!(first.content.as_deref(), Some("one"));
    assert_eq!(first.created_at, Some(10));
    assert_eq!(first.updated_at, Some(10));
    assert_eq!(third.created_at, Some(30));
    assert!(matches!(first.msg_type, MessageType::Text));
}

#[test]
fn backlog_after_cursor_five() {
    // messages 3, 6, 7 and 9 are for the receiver, the others for someone else
    let mut db = ready_db();
    for id in 1..=9 {
        let to = if [3, 6, 7, 9].contains(&id) { "receiver" } else { "other" };
        let stored = payload("sender", to, "m").create(&mut db, id as i64).unwrap();
        assert_eq!(stored.id, Some(id));
    }
    MessageAck::new("receiver".to_string(), Some(5)).received(&mut db).unwrap();
    let backlog = Message::get_offline_messages(&db, "receiver").unwrap();
    assert_eq!(ids(&backlog), vec![9, 7, 6]);
    // the replay does not move the cursor
    let cursor = MessageAck::get_last_ack(&db, "receiver").unwrap().unwrap();
    assert_eq!(cursor.receiver, "receiver");
    assert_eq!(cursor.last_ack, Some(5));
    assert_eq!(ids(&Message::get_offline_messages(&db, "receiver").unwrap()), vec![9, 7, 6]);
    assert_eq!(ids(&db.query_messages("receiver", 5).unwrap()), vec![9, 7, 6]);
    assert_eq!(ids(&db.query_messages("receiver", 6).unwrap()), vec![9, 7]);
    assert_eq!(ids(&db.query_messages("receiver", 9).unwrap()), Vec::<i32>::new());
}

#[test]
fn backlog_without_cursor_is_everything() {
    let mut db = ready_db();
    for _ in 0..3 {
        payload("a", "b", "m").create(&mut db, 0).unwrap();
    }
    payload("a", "c", "m").create(&mut db, 0).unwrap();
    assert_eq!(MessageAck::get_last_ack(&db, "b").unwrap().map(|a| a.last_ack), None);
    assert_eq!(ids(&Message::get_offline_messages(&db, "b").unwrap()), vec![3, 2, 1]);
    // a cursor without an id counts as none
    MessageAck::new("b".to_string(), None).received(&mut db).unwrap();
    assert_eq!(ids(&Message::get_offline_messages(&db, "b").unwrap()), vec![3, 2, 1]);
    assert_eq!(ids(&Message::get_offline_messages(&db, "c").unwrap()), vec![4]);
    assert_eq!(ids(&Message::get_offline_messages(&db, "nobody").unwrap()), Vec::<i32>::new());
}

#[test]
fn pages_are_newest_first() {
    let mut db = ready_db();
    for i in 0..25 {
        let to = if i % 5 == 4 { "other" } else { "me" };
        payload("a", to, "m").create(&mut db, 0).unwrap();
    }
    // 20 messages for "me": all ids but 5, 10, 15, 20, 25
    let page = Message::get_messages(&db, "me", 1, 10).unwrap();
    assert_eq!(page.total, 20);
    assert_eq!(page.current, 1);
    assert_eq!(page.page_size, 10);
    assert_eq!(ids(&page.messages), vec![24, 23, 22, 21, 19, 18, 17, 16, 14, 13]);
    let page = Message::get_messages(&db, "me", 2, 10).unwrap();
    assert_eq!(ids(&page.messages), vec![12, 11, 9, 8, 7, 6, 4, 3, 2, 1]);
    let page = Message::get_messages(&db, "me", 3, 10).unwrap();
    assert_eq!(page.total, 20);
    assert!(page.messages.is_empty());
    let page = Message::get_messages(&db, "me", 2, 50).unwrap();
    assert!(page.messages.is_empty());
    let page = Message::get_messages(&db, "me", 1, 100).unwrap();
    assert_eq!(page.messages.len(), 20);
    let page = Message::get_messages(&db, "me", 4, 6).unwrap();
    assert_eq!(ids(&page.messages), vec![2, 1]);
    let page = Message::get_messages(&db, "me", u32::MAX, u32::MAX).unwrap();
    assert!(page.messages.is_empty());
    let page = Message::get_messages(&db, "nobody", 1, 10).unwrap();
    assert_eq!(page.total, 0);
    assert!(page.messages.is_empty());
    // there is no page 0
    let page = Message::get_messages(&db, "me", 0, 10).unwrap();
    assert_eq!(page.total, 20);
    assert!(page.messages.is_empty());
    let page = Message::get_messages(&db, "me", 1, 0).unwrap();
    assert_eq!(page.total, 20);
    assert!(page.messages.is_empty());
}

#[test]
fn cursor_is_upserted() {
    let mut db = ready_db();
    assert!(MessageAck::get_last_ack(&db, "r").unwrap().is_none());
    MessageAck::new("r".to_string(), Some(3)).received(&mut db).unwrap();
    MessageAck::new("s".to_string(), Some(8)).received(&mut db).unwrap();
    assert_eq!(MessageAck::get_last_ack(&db, "r").unwrap().unwrap().last_ack, Some(3));
    MessageAck::new("r".to_string(), Some(7)).received(&mut db).unwrap();
    assert_eq!(MessageAck::get_last_ack(&db, "r").unwrap().unwrap().last_ack, Some(7));
    assert_eq!(MessageAck::get_last_ack(&db, "s").unwrap().unwrap().last_ack, Some(8));
    assert_eq!(db.get_ack_cursor("r").unwrap().unwrap().receiver, "r");
}

#[test]
fn peer_table_basics() {
    let mut clients = Clients::new();
    assert!(!clients.contains("a"));
    assert!(clients.get("a").is_none());
    assert!(clients.remove("a").is_none());
    clients.add(Client::new("socket-1".to_string(), "a".to_string()));
    clients.add(Client::new("socket-2".to_string(), "b".to_string()));
    assert!(clients.contains("a"));
    assert!(clients.contains("b"));
    assert!(!clients.contains("socket-1"));
    let found = clients.get("a").unwrap();
    assert_eq!(found.client_id, "a");
    assert_eq!(found.socket_id, "socket-1");
    // a second entry for the same device replaces the first
    clients.add(Client::new("socket-3".to_string(), "a".to_string()));
    assert_eq!(clients.get("a").unwrap().socket_id, "socket-3");
    let removed = clients.remove("a").unwrap();
    assert_eq!(removed.client_id, "a");
    assert_eq!(removed.socket_id, "socket-3");
    assert!(!clients.contains("a"));
    assert!(clients.remove("a").is_none());
    assert_eq!(clients.get("b").unwrap().socket_id, "socket-2");
}

#[test]
fn registering_twice_keeps_one_entry() {
    let mut clients = Clients::new();
    register(&mut clients, "socket-1".to_string(), &device("a"));
    register(&mut clients, "socket-2".to_string(), &device("a"));
    assert_eq!(clients.get("a").unwrap().socket_id, "socket-1");
    assert!(clients.remove("a").is_some());
    // one removal empties the table of the device
    assert!(!clients.contains("a"));
    assert!(clients.remove("a").is_none());
}

#[test]
fn authentication_needs_a_registered_token() {
    let mut db = ready_db();
    device("known").create(&mut db, 0).unwrap();
    let mut clients = Clients::new();
    let auth = |token: Option<&str>| Auth { fingerprint: token.map(|t| t.to_string()) };

    assert_eq!(
        authenticate_middleware(&mut clients, &db, "s1".to_string(), auth(None)),
        Err(AuthError::Unauthorized)
    );
    assert_eq!(
        authenticate_middleware(&mut clients, &db, "s1".to_string(), auth(Some("unknown"))),
        Err(AuthError::Unauthorized)
    );
    assert_eq!(
        authenticate_middleware(&mut clients, &db, "s1".to_string(), auth(Some(""))),
        Err(AuthError::Unauthorized)
    );
    assert!(!clients.contains("known"));
    assert!(!clients.contains("unknown"));

    assert_eq!(authenticate_middleware(&mut clients, &db, "s1".to_string(), auth(Some("known"))), Ok(()));
    assert_eq!(clients.get("known").unwrap().socket_id, "s1");
    // authenticating again does not register a second time
    assert_eq!(authenticate_middleware(&mut clients, &db, "s2".to_string(), auth(Some("known"))), Ok(()));
    assert_eq!(clients.get("known").unwrap().socket_id, "s1");
    assert!(clients.remove("known").is_some());
    assert!(!clients.contains("known"));
}

#[test]
fn authentication_without_registry_is_refused() {
    let db = DBManager::new();
    let mut clients = Clients::new();
    let auth = Auth { fingerprint: Some("known".to_string()) };
    assert_eq!(
        authenticate_middleware(&mut clients, &db, "s1".to_string(), auth),
        Err(AuthError::Store(DbError::NotInitialized))
    );
    assert_eq!(
        authenticate_middleware(&mut clients, &db, "s1".to_string(), Auth { fingerprint: None }),
        Err(AuthError::Unauthorized)
    );
    assert!(!clients.contains("known"));
}

#[test]
fn message_to_offline_receiver_waits_for_replay() {
    let mut db = ready_db();
    let clients = Clients::new();
    MessageAck::new("r".to_string(), Some(0)).received(&mut db).unwrap();
    let next = message_handler(&mut db, &clients, &payload("s", "r", "hi"), 5).unwrap();
    let stored = match next {
        Delivery::Stored(message) => message,
        Delivery::Push { .. } => panic!("nobody is connected"),
    };
    assert_eq!(stored.id, Some(1));
    let backlog = Message::get_offline_messages(&db, "r").unwrap();
    assert_eq!(ids(&backlog), vec![1]);
    assert_eq!(backlog[0].content.as_deref(), Some("hi"));
    assert_eq!(backlog[0].uuid, stored.uuid);
    assert_eq!(MessageAck::get_last_ack(&db, "r").unwrap().unwrap().last_ack, Some(0));
}

#[test]
fn message_to_online_receiver_is_pushed_to_its_socket() {
    let mut db = ready_db();
    let mut clients = Clients::new();
    clients.add(Client::new("socket-r".to_string(), "r".to_string()));
    clients.add(Client::new("socket-s".to_string(), "s".to_string()));
    let next = message_handler(&mut db, &clients, &payload("s", "r", "hi"), 5).unwrap();
    match next {
        Delivery::Push { socket_id, message } => {
            assert_eq!(socket_id, "socket-r");
            assert_eq!(message.id, Some(1));
            assert_eq!(message.receiver, "r");
        },
        Delivery::Stored(_) => panic!("the receiver is connected"),
    }
    // stored all the same: durability comes first
    assert_eq!(ids(&Message::get_offline_messages(&db, "r").unwrap()), vec![1]);
}

#[test]
fn message_that_cannot_be_stored_goes_nowhere() {
    let mut db = DBManager::new();
    let mut clients = Clients::new();
    clients.add(Client::new("socket-r".to_string(), "r".to_string()));
    assert_eq!(
        message_handler(&mut db, &clients, &payload("s", "r", "hi"), 5).err(),
        Some(DbError::NotInitialized)
    );
    let reply = AckResponse::failure(&DbError::NotInitialized.message());
    assert_eq!(reply.status_code, 500);
    assert_eq!(
        reply.message.as_deref(),
        Some("Failed to create message: SQLite connection pool has not been initialized")
    );
}

#[test]
fn route_follows_the_peer_table() {
    let mut clients = Clients::new();
    let mut stored = payload("s", "r", "hi");
    stored.id = Some(4);
    assert!(matches!(route(&clients, stored.clone()), Delivery::Stored(m) if m.id == Some(4)));
    clients.add(Client::new("sock".to_string(), "r".to_string()));
    assert!(matches!(route(&clients, stored.clone()), Delivery::Push { socket_id, .. } if socket_id == "sock"));
    on_disconnect(&mut clients, "r");
    assert!(matches!(route(&clients, stored), Delivery::Stored(_)));
}

#[test]
fn acknowledged_message_moves_the_cursor() {
    let mut db = ready_db();
    let clients = Clients::new();
    for _ in 0..3 {
        message_handler(&mut db, &clients, &payload("s", "r", "m"), 0).unwrap();
    }
    let newest = Message::get_offline_messages(&db, "r").unwrap().remove(0);
    assert_eq!(newest.id, Some(3));
    assert_eq!(settle(&mut db, &newest, &ok_reply()), Ok(true));
    assert_eq!(MessageAck::get_last_ack(&db, "r").unwrap().unwrap().last_ack, Some(3));
    assert!(Message::get_offline_messages(&db, "r").unwrap().is_empty());
    // messages stay stored
    assert_eq!(Message::get_messages(&db, "r", 1, 10).unwrap().total, 3);
}

#[test]
fn unacknowledged_message_leaves_the_cursor() {
    let mut db = ready_db();
    let clients = Clients::new();
    for _ in 0..2 {
        message_handler(&mut db, &clients, &payload("s", "r", "m"), 0).unwrap();
    }
    let newest = Message::get_offline_messages(&db, "r").unwrap().remove(0);
    MessageAck::new("r".to_string(), Some(1)).received(&mut db).unwrap();
    let outcomes = [
        AckOutcome::TimedOut,
        AckOutcome::Failed,
        AckOutcome::Replied(AckResponse { status_code: 500, message: Some("no".to_string()) }),
        AckOutcome::Replied(AckResponse { status_code: 404, message: None }),
        AckOutcome::Replied(AckResponse { status_code: 201, message: None }),
    ];
    for outcome in outcomes.iter() {
        assert_eq!(settle(&mut db, &newest, outcome), Ok(false));
        assert!(confirm(&newest, outcome).is_none());
        assert_eq!(MessageAck::get_last_ack(&db, "r").unwrap().unwrap().last_ack, Some(1));
        assert_eq!(ids(&Message::get_offline_messages(&db, "r").unwrap()), vec![2]);
    }
    let ack = confirm(&newest, &ok_reply()).unwrap();
    assert_eq!(ack.receiver, "r");
    assert_eq!(ack.last_ack, Some(2));
    assert_eq!(ACK_TIMEOUT_SECS, 6);
}

#[test]
fn settle_without_store_reports_it() {
    let mut db = DBManager::new();
    let mut m = payload("s", "r", "m");
    m.id = Some(1);
    assert_eq!(settle(&mut db, &m, &ok_reply()), Err(DbError::NotInitialized));
    assert_eq!(settle(&mut db, &m, &AckOutcome::TimedOut), Ok(false));
}

#[test]
fn devices_are_registered_once() {
    let mut db = ready_db();
    let stored = device("a").create(&mut db, 7).unwrap();
    assert_eq!(stored.id, "a");
    assert_eq!(stored.name.as_deref(), Some("device a"));
    assert_eq!(stored.auto_message_clean, None);
    assert_eq!(stored.created_at, Some(7));
    assert_eq!(device("a").create(&mut db, 8).err(), Some(DbError::Conflict));
    let found = client::Client::get_by_id(&db, "a").unwrap().unwrap();
    assert_eq!(found.created_at, Some(7));
    assert!(client::Client::get_by_id(&db, "b").unwrap().is_none());
}

#[test]
fn device_patch_writes_named_fields() {
    let mut db = ready_db();
    device("a").create(&mut db, 1).unwrap();
    let nothing = client::Client { name: None, ..device("a") };
    assert_eq!(nothing.patch(&mut db, 2).err(), Some(DbError::NoFields));
    assert_eq!(DbError::NoFields.message(), "No fields need to update");
    let patch = client::Client {
        name: None,
        avatar: Some("cat.png".to_string()),
        auto_message_clean: Some(2),
        ..device("a")
    };
    assert_eq!(patch.patch(&mut db, 3), Ok(()));
    let found = client::Client::get_by_id(&db, "a").unwrap().unwrap();
    assert_eq!(found.name.as_deref(), Some("device a"));
    assert_eq!(found.avatar.as_deref(), Some("cat.png"));
    assert_eq!(found.auto_message_clean, Some(2));
    assert_eq!(found.created_at, Some(1));
    assert_eq!(found.updated_at, Some(3));
    // an unknown device is not created by a patch
    assert_eq!(device("zzz").patch(&mut db, 4), Ok(()));
    assert!(client::Client::get_by_id(&db, "zzz").unwrap().is_none());
}

#[test]
fn message_kinds_by_name() {
    for (kind, name) in [
        (MessageType::Text, "text"),
        (MessageType::Image, "image"),
        (MessageType::Video, "video"),
        (MessageType::File, "file"),
    ] {
        assert_eq!(kind.as_str(), name);
        assert_eq!(MessageType::from_name(name), Some(kind));
    }
    assert_eq!(MessageType::from_name("Text"), None);
    for (kind, name) in [
        (MessageType::Text, "Text"),
        (MessageType::Image, "Image"),
        (MessageType::Video, "Video"),
        (MessageType::File, "File"),
    ] {
        assert_eq!(kind.as_stored(), name);
        assert_eq!(MessageType::from_stored(name), Some(kind));
    }
    assert_eq!(MessageType::from_stored("text"), None);
    assert_eq!(MessageType::from_stored(""), None);
    assert_eq!(MessageType::from_name(""), None);
    assert_eq!(MessageType::from_name("audio"), None);
    assert_eq!(MessageStatus::Initial.code(), 1);
    assert_eq!(MessageStatus::Received.code(), 2);
    assert_eq!(MessageStatus::Readed.code(), 3);
}

fn texts(values: &[Bound]) -> Vec<String> {
    values
        .iter()
        .map(|v| match v {
            Bound::Text(t) => t.clone(),
            Bound::Number(n) => format!("#{n}"),
        })
        .collect()
}

#[test]
fn device_patch_statement_names_the_fields() {
    let all = client::Client {
        name: Some("n".to_string()),
        avatar: Some("a".to_string()),
        auto_message_clean: Some(3),
        ..device("id-1")
    };
    let s = all.patch_statement().unwrap();
    assert_eq!(s.sql, "UPDATE clients SET name = ?, avatar = ?, auto_message_clean = ? WHERE id = ?");
    assert_eq!(texts(&s.values), vec!["n", "a", "#3", "id-1"]);

    let only_avatar = client::Client { name: None, avatar: Some("a".to_string()), ..device("x") };
    let s = only_avatar.patch_statement().unwrap();
    assert_eq!(s.sql, "UPDATE clients SET avatar = ? WHERE id = ?");
    assert_eq!(texts(&s.values), vec!["a", "x"]);

    let name_and_days = client::Client { auto_message_clean: Some(0), ..device("x") };
    let s = name_and_days.patch_statement().unwrap();
    assert_eq!(s.sql, "UPDATE clients SET name = ?, auto_message_clean = ? WHERE id = ?");
    assert_eq!(texts(&s.values), vec!["device x", "#0", "x"]);

    let only_days = client::Client { name: None, auto_message_clean: Some(-1), ..device("x") };
    let s = only_days.patch_statement().unwrap();
    assert_eq!(s.sql, "UPDATE clients SET auto_message_clean = ? WHERE id = ?");
    assert_eq!(texts(&s.values), vec!["#-1", "x"]);

    let nothing = client::Client { name: None, ..device("x") };
    assert_eq!(nothing.patch_statement().err(), Some(DbError::NoFields));
    assert!(!nothing.has_update());
    assert!(only_days.has_update());
}

#[test]
fn page_offsets() {
    assert_eq!(Message::page_offset(1, 10), Some(0));
    assert_eq!(Message::page_offset(2, 10), Some(10));
    assert_eq!(Message::page_offset(3, 50), Some(100));
    assert_eq!(Message::page_offset(7, 0), Some(0));
    assert_eq!(Message::page_offset(0, 10), None);
    assert_eq!(Message::page_offset(u32::MAX, u32::MAX), Some(4294967294 * 4294967295));
    assert_eq!(MessageAck::watermark(&None), 0);
    assert_eq!(MessageAck::watermark(&Some(MessageAck::new("r".to_string(), None))), 0);
    assert_eq!(MessageAck::watermark(&Some(MessageAck::new("r".to_string(), Some(12)))), 12);
    assert_eq!(MessageAck::watermark(&Some(MessageAck::new("r".to_string(), Some(-4)))), -4);
}

#[test]
fn connection_is_decided_on_the_lookup() {
    assert_eq!(presented(Auth { fingerprint: Some("t".to_string()) }), Ok("t".to_string()));
    assert_eq!(presented(Auth { fingerprint: Some(String::new()) }), Ok(String::new()));
    assert_eq!(presented(Auth { fingerprint: None }), Err(AuthError::Unauthorized));
    let mut clients = Clients::new();
    assert_eq!(enter(&mut clients, "s1".to_string(), None), Err(AuthError::Unauthorized));
    assert!(!clients.contains("a"));
    assert_eq!(enter(&mut clients, "s1".to_string(), Some(device("a"))), Ok(()));
    assert_eq!(clients.get("a").unwrap().socket_id, "s1");
    assert_eq!(enter(&mut clients, "s2".to_string(), Some(device("a"))), Ok(()));
    assert_eq!(clients.get("a").unwrap().socket_id, "s1");
    assert_eq!(AuthError::Unauthorized.message(), "Unauthorized");
    assert_eq!(
        AuthError::Store(DbError::NotInitialized).message(),
        "SQLite connection pool has not been initialized"
    );
}
