use rust_openfire_auth::auth::{AuthState, Credentials};
use rust_openfire_auth::communication::{
    connect_report, generate_message_id, status_text, Message, MessageCounter, MessageType,
    OpenFireClient, Presence, PresenceStatus,
    XmppEvent,
};
use rust_openfire_auth::config::Config;
use rust_openfire_auth::error::OpenFireError;

fn connected_client() -> OpenFireClient {
    let mut client = OpenFireClient::new(Config::default()).unwrap();
    let creds = Credentials::new("testuser".to_string(), "testpass".to_string());
    client.connect(creds, 500).unwrap();
    client
}

#[test]
fn test_client_creation() {
    let config = Config::default();
    let client = OpenFireClient::new(config);
    assert!(client.is_ok());
}

#[test]
fn test_message_creation() {
    let msg = Message::new_chat(
        "user1@localhost".to_string(),
        "user2@localhost".to_string(),
        "Hello World!".to_string(),
    );

    assert_eq!(msg.message_type, MessageType::Chat);
    assert_eq!(msg.body, "Hello World!");
    assert_eq!(msg.from, "user1@localhost");
    assert_eq!(msg.to, "user2@localhost");
}

#[test]
fn test_presence_creation() {
    let presence = Presence::new("user@localhost".to_string(), PresenceStatus::Available)
        .with_message("Working".to_string())
        .with_priority(5);

    assert_eq!(presence.status, PresenceStatus::Available);
    assert_eq!(presence.status_message, Some("Working".to_string()));
    assert_eq!(presence.priority, 5);
}

#[test]
fn test_connect_disconnect() {
    let config = Config::default();
    let mut client = OpenFireClient::new(config).unwrap();

    let creds = Credentials::new("testuser".to_string(), "testpass".to_string());

    assert!(client.connect(creds, 500).is_ok());
    assert!(client.is_connected());

    assert!(client.disconnect().is_ok());
    assert!(!client.is_connected());
}

#[test]
fn group_chat_message_kind() {
    let msg = Message::new_group_chat("a@x".to_string(), "room@conf".to_string(), "hi".to_string());
    assert_eq!(msg.message_type, MessageType::GroupChat);
    assert!(msg.id.starts_with("msg_"));
    assert!(msg.subject.is_none() && msg.thread.is_none());
}

#[test]
fn message_ids_are_prefix_and_hex() {
    assert_eq!(generate_message_id(0), "msg_0");
    assert_eq!(generate_message_id(255), "msg_ff");
    assert_eq!(generate_message_id(4096), "msg_1000");
}

#[test]
fn presence_at_keeps_timestamp() {
    let p = Presence::at("a@b".to_string(), PresenceStatus::Away, 1_700_000_000);
    assert_eq!(p.timestamp, 1_700_000_000);
    assert_eq!(p.status, PresenceStatus::Away);
    assert_eq!(p.priority, 0);
    assert!(p.status_message.is_none());
}

#[test]
fn compose_sets_every_field() {
    let m = Message::compose(
        MessageType::Headline,
        "msg_7".to_string(),
        "a".to_string(),
        "b".to_string(),
        "c".to_string(),
        42,
    );
    assert_eq!(m.id, "msg_7");
    assert_eq!(m.message_type, MessageType::Headline);
    assert_eq!(m.timestamp, 42);
    assert_eq!((m.from.as_str(), m.to.as_str(), m.body.as_str()), ("a", "b", "c"));
}

#[test]
fn connect_sets_available_presence_and_disconnect_clears_it() {
    let mut client = connected_client();
    let p = client.get_presence().unwrap();
    assert_eq!(p.status, PresenceStatus::Available);
    assert_eq!(p.jid, "testuser@localhost");
    client.disconnect().unwrap();
    assert!(!client.is_connected());
    assert!(client.get_presence().is_none());
}

#[test]
fn failed_connect_leaves_session_disconnected() {
    let mut client = OpenFireClient::new(Config::default()).unwrap();
    let creds = Credentials::new("invalid".to_string(), "testpass".to_string());
    match client.connect(creds, 5) {
        Err(OpenFireError::AuthenticationFailed { message }) => {
            assert!(message.contains("Invalid username"))
        }
        other => panic!("unexpected {:?}", other),
    }
    assert!(!client.is_connected());
    assert!(client.get_presence().is_none());
    assert!(matches!(client.auth_manager.get_state(), AuthState::Failed(_)));
}

#[test]
fn operations_need_a_connection() {
    let mut counter = MessageCounter::new();
    let mut client = OpenFireClient::new(Config::default()).unwrap();
    let not_connected = |e: OpenFireError| match e {
        OpenFireError::ConnectionError { message } => message == "Not connected to server",
        _ => false,
    };
    assert!(not_connected(client.send_message(&mut counter, "a@b", "x").unwrap_err()));
    assert!(not_connected(client.send_group_message(&mut counter, "r@c", "x").unwrap_err()));
    assert!(not_connected(client.set_presence(PresenceStatus::Away, None).unwrap_err()));
    assert!(not_connected(client.join_room("r@c", "n").unwrap_err()));
    assert!(not_connected(client.leave_room("r@c").unwrap_err()));
    assert!(not_connected(client.add_contact("a@b", None, vec![]).unwrap_err()));
    assert!(not_connected(client.remove_contact("a@b").unwrap_err()));
    assert!(not_connected(client.get_server_info().unwrap_err()));
}

#[test]
fn send_message_returns_an_id() {
    let mut counter = MessageCounter::new();
    let client = connected_client();
    let id = client.send_message(&mut counter, "friend@localhost", "hello").unwrap();
    assert_eq!(id, "msg_0");
}

#[test]
fn successive_sends_get_distinct_ids() {
    let mut counter = MessageCounter::new();
    let mut client = connected_client();
    client.join_room("room@conf.example", "nick").unwrap();
    let a = client.send_message(&mut counter, "friend@localhost", "one").unwrap();
    let b = client.send_group_message(&mut counter, "room@conf.example", "two").unwrap();
    let c = client.send_message(&mut counter, "friend@localhost", "three").unwrap();
    assert_eq!((a.as_str(), b.as_str(), c.as_str()), ("msg_0", "msg_1", "msg_2"));
    assert!(client.send_group_message(&mut counter, "other@conf", "x").is_err());
    assert_eq!(client.send_message(&mut counter, "friend@localhost", "four").unwrap(), "msg_3");
    assert_eq!(counter.next, 4);
}

#[test]
fn scenario_group_message_without_joining_is_a_protocol_error() {
    let mut counter = MessageCounter::new();
    let client = connected_client();
    match client.send_group_message(&mut counter, "room@conf.example", "hi") {
        Err(OpenFireError::XmppProtocolError { message }) => {
            assert_eq!(message, "Not joined to room: room@conf.example");
            assert!(message.contains("Not joined"));
        }
        other => panic!("unexpected {:?}", other),
    }
}

#[test]
fn scenario_join_room_lists_one_joined_room() {
    let mut counter = MessageCounter::new();
    let mut client = connected_client();
    client.join_room("room@conf.example", "nick").unwrap();
    let rooms = client.get_chat_rooms();
    assert_eq!(rooms.len(), 1);
    assert!(rooms[0].joined);
    assert!(rooms[0].participants.contains(&"nick".to_string()));
    assert_eq!(rooms[0].name, "room");
    assert_eq!(rooms[0].jid, "room@conf.example");
    assert!(client.send_group_message(&mut counter, "room@conf.example", "hi").is_ok());
}

#[test]
fn joining_again_overwrites_the_room() {
    let mut client = connected_client();
    client.join_room("lobby", "first").unwrap();
    client.join_room("lobby", "second").unwrap();
    let rooms = client.get_chat_rooms();
    assert_eq!(rooms.len(), 1);
    assert_eq!(rooms[0].name, "lobby");
    assert_eq!(rooms[0].participants, vec!["second".to_string()]);
}

#[test]
fn leaving_an_unjoined_room_changes_nothing() {
    let mut client = connected_client();
    client.join_room("a@conf", "me").unwrap();
    assert!(client.leave_room("b@conf").is_ok());
    assert_eq!(client.get_chat_rooms().len(), 1);
    assert!(client.leave_room("a@conf").is_ok());
    assert_eq!(client.get_chat_rooms().len(), 0);
    assert!(client.leave_room("a@conf").is_ok());
    assert_eq!(client.get_chat_rooms().len(), 0);
}

#[test]
fn disconnecting_twice_gives_the_same_state() {
    let mut client = connected_client();
    client.join_room("a@conf", "me").unwrap();
    client.disconnect().unwrap();
    let rooms_after_first = client.get_chat_rooms().len();
    assert_eq!(rooms_after_first, 0);
    assert!(client.disconnect().is_ok());
    assert!(!client.is_connected());
    assert!(client.get_presence().is_none());
    assert!(matches!(client.auth_manager.get_state(), AuthState::Disconnected));
    assert_eq!(client.get_chat_rooms().len(), rooms_after_first);
}

#[test]
fn presence_update_replaces_presence_and_is_announced() {
    let mut client = connected_client();
    client.open_event_queue();
    client
        .set_presence(PresenceStatus::DoNotDisturb, Some("busy".to_string()))
        .unwrap();
    let p = client.get_presence().unwrap();
    assert_eq!(p.status, PresenceStatus::DoNotDisturb);
    assert_eq!(p.status_message, Some("busy".to_string()));
    assert_eq!(p.jid, "testuser@localhost");
    let events = client.drain_events();
    assert_eq!(events.len(), 1);
    match &events[0] {
        XmppEvent::PresenceUpdated(q) => assert_eq!(q.status, PresenceStatus::DoNotDisturb),
        other => panic!("unexpected {:?}", other),
    }
}

#[test]
fn events_come_out_in_emission_order() {
    let mut client = OpenFireClient::new(Config::default()).unwrap();
    client.open_event_queue();
    let creds = Credentials::new("testuser".to_string(), "testpass".to_string());
    client.connect(creds, 1).unwrap();
    client.add_contact("pal@localhost", Some("Pal".to_string()), vec!["Friends".to_string()]).unwrap();
    client.disconnect().unwrap();
    let events = client.drain_events();
    assert_eq!(events.len(), 3);
    assert!(matches!(&events[0], XmppEvent::ConnectionStateChanged(s) if s == "connected"));
    match &events[1] {
        XmppEvent::ContactUpdated(c) => {
            assert_eq!(c.jid, "pal@localhost");
            assert_eq!(c.name, Some("Pal".to_string()));
            assert_eq!(c.subscription, "none");
            assert_eq!(c.groups, vec!["Friends".to_string()]);
        }
        other => panic!("unexpected {:?}", other),
    }
    assert!(matches!(&events[2], XmppEvent::ConnectionStateChanged(s) if s == "disconnected"));
    assert!(client.drain_events().is_empty());
}

#[test]
fn events_without_subscriber_are_dropped() {
    let mut client = connected_client();
    client.add_contact("pal@localhost", None, vec![]).unwrap();
    client.open_event_queue();
    assert!(client.drain_events().is_empty());
}

#[test]
fn roster_add_overwrite_remove() {
    let mut client = connected_client();
    client.add_contact("pal@localhost", None, vec![]).unwrap();
    client.add_contact("pal@localhost", Some("Pal".to_string()), vec![]).unwrap();
    client.add_contact("other@localhost", None, vec![]).unwrap();
    let contacts = client.get_contacts();
    assert_eq!(contacts.len(), 2);
    assert_eq!(contacts[0].name, Some("Pal".to_string()));
    client.remove_contact("pal@localhost").unwrap();
    client.remove_contact("nobody@localhost").unwrap();
    let contacts = client.get_contacts();
    assert_eq!(contacts.len(), 1);
    assert_eq!(contacts[0].jid, "other@localhost");
}

#[test]
fn server_info_pairs() {
    let client = connected_client();
    let info = client.get_server_info().unwrap();
    assert_eq!(
        info,
        vec![
            ("server".to_string(), "localhost".to_string()),
            ("domain".to_string(), "localhost".to_string()),
            ("port".to_string(), "5222".to_string()),
            ("version".to_string(), "OpenFire 4.7.0".to_string()),
        ]
    );
}

#[test]
fn client_rejects_invalid_config() {
    let mut config = Config::default();
    config.connection_timeout = 0;
    assert!(matches!(OpenFireClient::new(config), Err(OpenFireError::ConfigError { .. })));
}

#[test]
fn presence_status_codes() {
    assert_eq!(PresenceStatus::from_code(0), Some(PresenceStatus::Available));
    assert_eq!(PresenceStatus::from_code(3), Some(PresenceStatus::DoNotDisturb));
    assert_eq!(PresenceStatus::from_code(5), Some(PresenceStatus::Invisible));
    assert_eq!(PresenceStatus::from_code(6), None);
    assert_eq!(PresenceStatus::from_code(-1), None);
}

#[test]
fn disconnect_empties_roster_and_rooms() {
    let mut client = connected_client();
    client.join_room("a@conf", "me").unwrap();
    client.add_contact("pal@localhost", None, vec![]).unwrap();
    client.disconnect().unwrap();
    assert!(client.get_chat_rooms().is_empty());
    assert!(client.get_contacts().is_empty());
}

#[test]
fn rejected_reconnect_empties_roster_and_rooms() {
    let mut client = connected_client();
    client.join_room("a@conf", "me").unwrap();
    client.add_contact("pal@localhost", None, vec![]).unwrap();
    let bad = Credentials::new("testuser".to_string(), "wrong".to_string());
    assert!(client.connect(bad, 1).is_err());
    assert!(!client.is_connected());
    assert!(client.get_chat_rooms().is_empty());
    assert!(client.get_contacts().is_empty());
}

#[test]
fn client_config_error_names_the_problem() {
    let mut config = Config::default();
    config.domain = String::new();
    match OpenFireClient::new(config) {
        Err(OpenFireError::ConfigError { message }) => assert_eq!(message, "Domain cannot be empty"),
        _ => panic!("expected a configuration error"),
    }
}

#[test]
fn two_sessions_sharing_a_counter_never_repeat_an_id() {
    let mut counter = MessageCounter::new();
    let first = connected_client();
    let second = connected_client();
    let a = first.send_message(&mut counter, "x@localhost", "hi").unwrap();
    let b = second.send_message(&mut counter, "x@localhost", "hi").unwrap();
    let c = first.send_message(&mut counter, "x@localhost", "again").unwrap();
    assert_ne!(a, b);
    assert_ne!(b, c);
    assert_ne!(a, c);
    assert_eq!((a.as_str(), b.as_str(), c.as_str()), ("msg_0", "msg_1", "msg_2"));
}

#[test]
fn failed_send_does_not_use_up_an_id() {
    let mut counter = MessageCounter::new();
    let client = OpenFireClient::new(Config::default()).unwrap();
    assert!(client.send_message(&mut counter, "x@localhost", "hi").is_err());
    assert_eq!(counter.next, 0);
    assert_eq!(counter.issue(), "msg_0");
    assert_eq!(counter.next, 1);
}

#[test]
fn session_id_is_kept_while_connected() {
    let mut client = connected_client();
    assert!(client.session_id.as_ref().unwrap().starts_with("session_uuid-"));
    client.disconnect().unwrap();
    assert!(client.session_id.is_none());
}

#[test]
fn connect_report_for_each_outcome() {
    let ok = connect_report(Ok(()), Some("a@b".to_string()), Some("session_x".to_string()), 12);
    assert!(ok.success);
    assert_eq!(ok.full_jid, Some("a@b".to_string()));
    assert_eq!(ok.session_id, Some("session_x".to_string()));
    assert_eq!(ok.auth_time_ms, 12);
    let odd = connect_report(Ok(()), None, None, 3);
    assert!(!odd.success);
    assert_eq!(odd.message, "Connected without presence");
    let err = connect_report(
        Err(OpenFireError::AuthenticationFailed { message: "nope".to_string() }),
        None,
        None,
        5,
    );
    assert!(!err.success);
    assert_eq!(err.message, "Authentication failed: nope");
    assert!(err.full_jid.is_none());
}

#[test]
fn empty_status_text_means_none() {
    assert_eq!(status_text(Some(String::new())), None);
    assert_eq!(status_text(None), None);
    assert_eq!(status_text(Some("busy".to_string())), Some("busy".to_string()));
}

#[test]
fn chat_messages_are_stamped_from_the_clock() {
    let m = Message::new_chat("a".to_string(), "b".to_string(), "c".to_string());
    assert!(m.timestamp > 1_600_000_000);
}
