use screeps_api::channel::Channel;
use screeps_api::commands::{authenticate, subscribe, unsubscribe};

#[test]
fn channel_strings() {
    assert_eq!(Channel::server_messages().to_string(), "server-message");
    assert_eq!(Channel::user_cpu("abc").to_string(), "user:abc/cpu");
    assert_eq!(Channel::user_messages("abc").to_string(), "user:abc/newMessage");
    assert_eq!(
        Channel::user_conversation("abc", "def").to_string(),
        "user:abc/message:def"
    );
    assert_eq!(Channel::user_credits("abc").to_string(), "user:abc/money");
    assert_eq!(
        Channel::user_memory_path("abc", "creeps.harvester").to_string(),
        "user:abc/memory/creeps.harvester"
    );
    assert_eq!(Channel::user_console("abc").to_string(), "user:abc/console");
    assert_eq!(
        Channel::user_active_branch("abc").to_string(),
        "user:abc/set-active-branch"
    );
    assert_eq!(Channel::room_map_view("E4S61").to_string(), "roomMap2:E4S61");
    assert_eq!(Channel::room_detail("E4S61").to_string(), "room:E4S61");
    assert_eq!(Channel::other("any:thing").to_string(), "any:thing");
}

#[test]
fn chain_prefixes_the_start() {
    assert_eq!(
        Channel::user_cpu("abc").chain_and_complete_message("subscribe "),
        "subscribe user:abc/cpu"
    );
    assert_eq!(Channel::server_messages().chain_and_complete_message(""), "server-message");
}

#[test]
fn subscribe_and_unsubscribe_frames() {
    assert_eq!(subscribe(&Channel::user_cpu("abc")), r#"["subscribe user:abc/cpu"]"#);
    assert_eq!(
        unsubscribe(&Channel::room_detail("W1N1")),
        r#"["unsubscribe room:W1N1"]"#
    );
}

#[test]
fn subscribe_escapes_json() {
    assert_eq!(
        subscribe(&Channel::other("a\"b\\c\n")),
        r#"["subscribe a\"b\\c\n"]"#
    );
}

#[test]
fn authenticate_frame() {
    assert_eq!(authenticate("token123"), r#"["auth token123"]"#);
}

#[test]
fn channels_compare_by_content() {
    assert_eq!(Channel::user_cpu("abc"), Channel::user_cpu("abc"));
    assert_ne!(Channel::user_cpu("abc"), Channel::user_console("abc"));
}

#[test]
fn subscribe_frame_decodes_back() {
    for c in [Channel::user_cpu("abc"), Channel::other(r#"a"b\c"#), Channel::room_detail("W1N1")] {
        let frame = subscribe(&c);
        let decoded: Vec<String> = serde_json::from_str(&frame).unwrap();
        assert_eq!(decoded, vec!["subscribe ".to_string() + &c.to_string()]);
    }
    assert_eq!(subscribe(&Channel::other(r#"a"b"#)), r#"["subscribe a\"b"]"#);
}
