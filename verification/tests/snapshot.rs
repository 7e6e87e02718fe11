use std::collections::{HashMap, HashSet};
use tg_ai_moderator::json::Json;
use tg_ai_moderator::prompts::AdminDirective;
use tg_ai_moderator::snapshot::{
    chat_id_text, chat_ids, chat_json, copy_users, counted_users, deserialize, listed_users,
    load_state, parse_chat_id, serialize, snapshot_from_json, snapshot_to_json, user_id_text,
};
use tg_ai_moderator::state::{
    ChatState, Language, Mode, SaveableServiceState, ServiceState,
};

fn directive(text: &str) -> AdminDirective {
    AdminDirective {
        author: "Ann \"the admin\"".to_string(),
        timestamp: "2025-06-01T10:00:00Z".to_string(),
        directive_text: text.to_string(),
    }
}

fn busy() -> SaveableServiceState {
    let mut first = ChatState::default();
    first.message_counter.insert(11, 0);
    first.message_counter.insert(u64::MAX, 2);
    first.quarantine_exited.insert(0);
    first.quarantine_exited.insert(77);
    first.working_mode = Mode::Notify;
    first.language = Language::Russian;
    first.admin_prompt_injections_active = true;
    first.admin_prompt_injections.push(directive("строго\nс рекламой"));
    first.admin_prompt_injections.push(directive(""));
    let mut chats = HashMap::new();
    chats.insert(-1001234567890, first);
    chats.insert(0, ChatState::default());
    chats.insert(i64::MIN, ChatState::default());
    chats.insert(i64::MAX, ChatState::default());
    SaveableServiceState { tg_chat_stats: chats, cas_banned_ids: HashSet::from([0, 5, u64::MAX]) }
}

fn empty() -> SaveableServiceState {
    SaveableServiceState { tg_chat_stats: HashMap::new(), cas_banned_ids: HashSet::new() }
}

#[test]
fn state_survives_the_round_trip_through_text() {
    for snapshot in [busy(), empty()] {
        let text = serialize(&snapshot).unwrap();
        assert_eq!(deserialize(&text), Some(snapshot));
    }
}

#[test]
fn state_survives_the_round_trip_through_a_document() {
    for snapshot in [busy(), empty()] {
        assert_eq!(snapshot_from_json(&snapshot_to_json(&snapshot)), Some(snapshot));
    }
}

#[test]
fn empty_state_as_text() {
    let text = serialize(&empty()).unwrap();
    assert_eq!(text, r#"{"cas_banned_ids":[],"tg_chat_stats":{}}"#);
}

#[test]
fn chat_as_a_document() {
    let mut chat = ChatState::default();
    chat.message_counter.insert(7, 1);
    chat.quarantine_exited.insert(8);
    chat.admin_prompt_injections.push(AdminDirective {
        author: "a".to_string(),
        timestamp: "t".to_string(),
        directive_text: "d".to_string(),
    });
    let expected = Json::Record(vec![
        (
            "message_counter".to_string(),
            Json::Record(vec![("7".to_string(), Json::Unsigned(1))]),
        ),
        ("working_mode".to_string(), Json::Text("Ban".to_string())),
        ("language".to_string(), Json::Text("English".to_string())),
        ("admin_prompt_injections_active".to_string(), Json::Bool(false)),
        (
            "admin_prompt_injections".to_string(),
            Json::List(vec![Json::Record(vec![
                ("author".to_string(), Json::Text("a".to_string())),
                ("timestamp".to_string(), Json::Text("t".to_string())),
                ("directive_text".to_string(), Json::Text("d".to_string())),
            ])]),
        ),
        ("quarantine_exited".to_string(), Json::List(vec![Json::Unsigned(8)])),
    ]);
    assert_eq!(chat_json(&chat), expected);
}

#[test]
fn stored_text_is_read() {
    let text = r#"{
        "tg_chat_stats": {
            "-100": {
                "message_counter": {"42": 2, "43": 0},
                "working_mode": "Notify",
                "language": "Russian",
                "admin_prompt_injections_active": true,
                "admin_prompt_injections": [
                    {"author": "Bo", "timestamp": "t", "directive_text": "be strict"}
                ]
            }
        },
        "cas_banned_ids": [3, 1, 2]
    }"#;
    let snapshot = deserialize(text).unwrap();
    assert_eq!(snapshot.cas_banned_ids, HashSet::from([1, 2, 3]));
    let chat = &snapshot.tg_chat_stats[&-100];
    assert_eq!(chat.message_counter, HashMap::from([(42, 2), (43, 0)]));
    assert_eq!(chat.working_mode, Mode::Notify);
    assert_eq!(chat.language, Language::Russian);
    assert!(chat.admin_prompt_injections_active);
    assert_eq!(chat.admin_prompt_injections.len(), 1);
    assert_eq!(chat.admin_prompt_injections[0].directive_text, "be strict");
    assert!(chat.quarantine_exited.is_empty());

    let with_exited = text.replace(
        "\"working_mode\": \"Notify\",",
        "\"working_mode\": \"Notify\", \"quarantine_exited\": [44, 45],",
    );
    let snapshot = deserialize(&with_exited).unwrap();
    assert_eq!(snapshot.tg_chat_stats[&-100].quarantine_exited, HashSet::from([44, 45]));
}

#[test]
fn what_is_no_snapshot_is_refused() {
    let good = r#"{"tg_chat_stats":{"1":{"message_counter":{},"working_mode":"Ban","language":"English","admin_prompt_injections_active":false,"admin_prompt_injections":[]}},"cas_banned_ids":[]}"#;
    assert!(deserialize(good).is_some());
    for (from, to) in [
        ("\"Ban\"", "\"ban\""),
        ("\"English\"", "\"en\""),
        ("false", "0"),
        ("\"1\":{", "\"x\":{"),
        ("\"1\":{", "\"9223372036854775808\":{"),
        ("\"message_counter\":{}", "\"message_counter\":{\"1\":256}"),
        ("\"message_counter\":{}", "\"message_counter\":{\"-1\":1}"),
        ("\"message_counter\":{}", "\"message_counter\":[]"),
        ("\"admin_prompt_injections\":[]", "\"admin_prompt_injections\":[{\"author\":\"a\"}]"),
        ("\"cas_banned_ids\":[]", "\"cas_banned_ids\":[-1]"),
        ("\"cas_banned_ids\":[]", "\"cas_banned_ids\":[\"1\"]"),
        ("\"cas_banned_ids\":[]", "\"cas_banned\":[]"),
        ("\"message_counter\":{}", "\"message_counter\":{},\"quarantine_exited\":{}"),
        ("\"message_counter\":{}", "\"message_counter\":{},\"quarantine_exited\":[\"1\"]"),
        ("\"message_counter\":{}", "\"message_counter\":{},\"quarantine_exited\":null"),
        ("\"working_mode\":\"Ban\",", ""),
    ] {
        assert!(good.contains(from));
        assert_eq!(deserialize(&good.replace(from, to)), None, "{from} -> {to}");
    }
    for text in ["", "{", "[]", "null", "{}", "\u{0}"] {
        assert_eq!(deserialize(text), None, "{text:?}");
    }
}

#[test]
fn missing_or_corrupt_storage_gives_the_empty_state() {
    assert_eq!(load_state(None), ServiceState::default());
    assert_eq!(load_state(Some("")), ServiceState::default());
    assert_eq!(load_state(Some("{\"tg_chat_stats\":")), ServiceState::default());
    let text = serialize(&busy()).unwrap();
    assert_eq!(load_state(Some(&text)), ServiceState::from(busy()));
}

#[test]
fn identifiers_as_texts() {
    for id in [0u64, 1, 9, 10, 99, 100, 12345678901234567890, u64::MAX] {
        assert_eq!(user_id_text(id), id.to_string());
    }
    for id in [0i64, 1, -1, 10, -10, 1234567890123, -1001234567890, i64::MAX, i64::MIN] {
        assert_eq!(chat_id_text(id), id.to_string());
        assert_eq!(parse_chat_id(&id.to_string()), Some(id));
    }
}

#[test]
fn chat_identifiers_are_read() {
    assert_eq!(parse_chat_id("007"), Some(7));
    assert_eq!(parse_chat_id("-0"), Some(0));
    assert_eq!(parse_chat_id("9223372036854775807"), Some(i64::MAX));
    assert_eq!(parse_chat_id("-9223372036854775808"), Some(i64::MIN));
    for text in ["", "-", "+1", "-+1", "--1", "1-", " 1", "1.0", "9223372036854775808", "-9223372036854775809", "18446744073709551616"] {
        assert_eq!(parse_chat_id(text), None, "{text:?}");
    }
}

#[test]
fn keys_are_listed_once() {
    let snapshot = busy();
    let mut ids = chat_ids(&snapshot.tg_chat_stats);
    ids.sort();
    assert_eq!(ids, vec![i64::MIN, -1001234567890, 0, i64::MAX]);
    let mut users = counted_users(&snapshot.tg_chat_stats[&-1001234567890].message_counter);
    users.sort();
    assert_eq!(users, vec![11, u64::MAX]);
    let mut banned = listed_users(&snapshot.cas_banned_ids);
    banned.sort();
    assert_eq!(banned, vec![0, 5, u64::MAX]);
    assert_eq!(copy_users(&snapshot.cas_banned_ids), snapshot.cas_banned_ids);
    assert_eq!(copy_users(&HashSet::new()), HashSet::new());
}
