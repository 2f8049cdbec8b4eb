use screeps_api::channel::Channel;
use screeps_api::channel_update::ChannelUpdate;
use screeps_api::parsing::{ParseError, ScreepsMessage, SockjsMessage};
use screeps_api::room_name::RoomName;

#[test]
fn sockjs_open_and_heartbeat() {
    assert!(matches!(SockjsMessage::parse("o"), Ok(SockjsMessage::Open)));
    assert!(matches!(SockjsMessage::parse("h"), Ok(SockjsMessage::Heartbeat)));
}

#[test]
fn sockjs_empty_frame_has_no_messages() {
    match SockjsMessage::parse("") {
        Ok(SockjsMessage::Messages(v)) => assert!(v.is_empty()),
        other => panic!("unexpected {:?}", other),
    }
}

#[test]
fn sockjs_close_frame() {
    match SockjsMessage::parse(r#"c[3000,"Go away!"]"#) {
        Ok(SockjsMessage::Close { code, reason }) => {
            assert_eq!(code, 3000);
            assert_eq!(reason, "Go away!");
        }
        other => panic!("unexpected {:?}", other),
    }
}

#[test]
fn sockjs_bad_close_frame_is_a_serde_error() {
    match SockjsMessage::parse("c[3000]") {
        Err(ParseError::Serde { error_desc, full_string, .. }) => {
            assert_eq!(error_desc, "error parsing closed json message");
            assert_eq!(full_string, "[3000]");
        }
        other => panic!("unexpected {:?}", other),
    }
}

#[test]
fn sockjs_single_message() {
    match SockjsMessage::parse(r#"m"time 1500000000""#) {
        Ok(SockjsMessage::Message(ScreepsMessage::ServerTime { time })) => {
            assert_eq!(time, 1500000000)
        }
        other => panic!("unexpected {:?}", other),
    }
}

#[test]
fn sockjs_array_of_messages() {
    match SockjsMessage::parse(r#"a["auth ok abc123","protocol 13","package 7","auth failed"]"#) {
        Ok(SockjsMessage::Messages(v)) => {
            assert_eq!(v.len(), 4);
            assert!(matches!(&v[0], ScreepsMessage::AuthOk { new_token } if new_token == "abc123"));
            assert!(matches!(v[1], ScreepsMessage::ServerProtocol { protocol: 13 }));
            assert!(matches!(v[2], ScreepsMessage::ServerPackage { package: 7 }));
            assert!(matches!(v[3], ScreepsMessage::AuthFailed));
        }
        other => panic!("unexpected {:?}", other),
    }
}

#[test]
fn sockjs_unknown_start_character() {
    match SockjsMessage::parse("zzz") {
        Err(ParseError::Other(s)) => assert_eq!(
            s,
            "Error parsing message, unknown start character: z (full message: zzz)"
        ),
        other => panic!("unexpected {:?}", other),
    }
}

#[test]
fn screeps_message_other() {
    assert!(matches!(ScreepsMessage::parse("hello"), ScreepsMessage::Other(s) if s == "hello"));
    assert!(matches!(ScreepsMessage::parse("time abc"), ScreepsMessage::Other(s) if s == "time abc"));
}

#[test]
fn channel_update_user_cpu() {
    match ScreepsMessage::parse(r#"["user:57874d42d0ae911e3bd15bbc/cpu",{"cpu":32,"memory":126435}]"#) {
        ScreepsMessage::ChannelUpdate { update } => {
            assert_eq!(update.user_id(), Some("57874d42d0ae911e3bd15bbc"));
            assert_eq!(update.shard_name(), None);
            assert_eq!(update.room_name(), None);
            assert_eq!(update.channel(), Channel::user_cpu("57874d42d0ae911e3bd15bbc"));
            match update {
                ChannelUpdate::UserCpu { update, .. } => {
                    assert_eq!(update, r#"{"cpu":32,"memory":126435}"#)
                }
                other => panic!("unexpected {:?}", other),
            }
        }
        other => panic!("unexpected {:?}", other),
    }
}

#[test]
fn channel_update_room_map_view_with_shard() {
    let update = ChannelUpdate::parse(r#"["roomMap2:shard0/E4S61",{"w":[]}]"#).unwrap();
    assert_eq!(update.shard_name(), Some("shard0"));
    assert_eq!(update.room_name(), Some(&RoomName::new("E4S61").unwrap()));
    assert_eq!(update.channel(), Channel::room_map_view("shard0/E4S61"));
}

#[test]
fn channel_update_no_room_detail() {
    let update = ChannelUpdate::parse(r#"["err@room:W1N1","subscribe limit reached"]"#).unwrap();
    assert!(matches!(update, ChannelUpdate::NoRoomDetail { shard_name: None, .. }));
    assert_eq!(update.room_name(), Some(&RoomName::new("W1N1").unwrap()));
    assert_eq!(update.channel(), Channel::room_detail("W1N1"));
}

#[test]
fn channel_update_conversation() {
    let update = ChannelUpdate::parse(r#"["user:a/message:b",{"message":{}}]"#).unwrap();
    match &update {
        ChannelUpdate::UserConversation { user_id, target_user_id, .. } => {
            assert_eq!(user_id, "a");
            assert_eq!(target_user_id, "b");
        }
        other => panic!("unexpected {:?}", other),
    }
    assert_eq!(update.channel(), Channel::user_conversation("a", "b"));
}

#[test]
fn channel_update_other_channel() {
    let update = ChannelUpdate::parse(r#"["server-message",{"x":1}]"#).unwrap();
    assert!(matches!(&update, ChannelUpdate::Other { channel, .. } if channel == "server-message"));
    assert_eq!(update.channel(), Channel::other("server-message"));
}

#[test]
fn channel_update_bad_room_name() {
    assert!(ChannelUpdate::parse(r#"["room:nowhere",{}]"#).is_none());
    assert!(ChannelUpdate::parse("not json").is_none());
}

#[test]
fn channel_update_from_channel_payloads() {
    let payloads = vec![r#"{"credits":5}"#.to_string()];
    let update = ChannelUpdate::from_channel("user:u1/money", &payloads).unwrap();
    assert!(matches!(&update, ChannelUpdate::UserCredits { user_id, update } if user_id == "u1" && update == r#"{"credits":5}"#));
}

#[test]
fn channel_update_names_its_own_channel() {
    for name in ["user:abc/cpu", "user:abc/console", "user:abc/money", "user:abc/newMessage", "user:abc/message:def", "user:abc/unknown", "something-else"] {
        let payloads = vec!["{}".to_string()];
        let update = ChannelUpdate::from_channel(name, &payloads).unwrap();
        assert_eq!(update.channel().to_string(), name);
    }
}
