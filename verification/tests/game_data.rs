use screeps_api::connecting::{session_path, transform_url, websocket_scheme, UrlError, UrlParseError};
use screeps_api::json_value::JsonValue;
use screeps_api::flags::{parse_flags, Flag, FlagColor, FlagColorError, FlagParseError};
use screeps_api::objects::{
    KnownRoomObject, ResourceError, ResourceField, ResourceFieldName, ResourceFieldValue,
    ResourceFields, ResourceUpdateFieldValue, ResourceUpdateFields, Source, SourceUpdate,
    StructureController, StructureRoad, StructureRoadUpdate, UpdateKindMismatch,
};
use screeps_api::objects::KnownRoomObjectUpdate;
use screeps_api::resources::ResourceType;
use screeps_api::room_map_view::{coordinate_from_text, RoomMapViewUpdate, RoomMapViewUpdateVisitor};
use screeps_api::room_name::RoomName;
use screeps_api::store::{Store, StoreUpdate};
use screeps_api::updatable::{Updatable, VecIndexKeyError, VecPartialUpdate, VecPartialUpdateVisitor, VecUpdate};
use screeps_api::user_console::{UserConsoleError, UserConsoleUpdate};

#[test]
fn room_names_round_trip() {
    let r = RoomName::new("E4S61").unwrap();
    assert_eq!(r.to_string(), "E4S61");
    assert_eq!(RoomName::new("W0N0").unwrap().to_string(), "W0N0");
    assert!(RoomName::new("X4S61").is_err());
    assert!(RoomName::new("E4S").is_err());
    assert!(RoomName::new("").is_err());
}

#[test]
fn flag_colors() {
    assert_eq!(FlagColor::from(1), Ok(FlagColor::Red));
    assert_eq!(FlagColor::from(10), Ok(FlagColor::White));
    assert_eq!(FlagColor::from(0), Err(FlagColorError));
    assert_eq!(FlagColor::from(11), Err(FlagColorError));
    for v in 1..=10u8 {
        assert_eq!(FlagColor::from(v).unwrap().code(), v);
    }
}

#[test]
fn flags_parse() {
    assert_eq!(parse_flags("").unwrap(), vec![]);
    assert_eq!(
        parse_flags("Flag571~2~3~14~7|home~1~1~25~25").unwrap(),
        vec![
            Flag {
                name: "Flag571".to_string(),
                primary_color: FlagColor::Purple,
                secondary_color: FlagColor::Blue,
                x: 14,
                y: 7,
            },
            Flag {
                name: "home".to_string(),
                primary_color: FlagColor::Red,
                secondary_color: FlagColor::Red,
                x: 25,
                y: 25,
            },
        ]
    );
}

#[test]
fn flags_parse_errors() {
    assert_eq!(
        parse_flags("Flag1~2~3~14").unwrap_err(),
        FlagParseError::MissingPart { flag: "Flag1~2~3~14".to_string() }
    );
    assert_eq!(
        parse_flags("Flag1~2~x~14~7").unwrap_err(),
        FlagParseError::NotANumber { text: "x".to_string() }
    );
    assert_eq!(parse_flags("Flag1~12~3~14~7").unwrap_err(), FlagParseError::BadColor { value: 12 });
}

#[test]
fn resource_strings() {
    assert_eq!(ResourceType::Utrium.to_resource_string(), "U");
    assert_eq!(ResourceType::from_resource_string("U"), Some(ResourceType::Utrium));
    assert_eq!(ResourceType::from_resource_string("energy"), Some(ResourceType::Energy));
    assert_eq!(ResourceType::from_resource_string("XGH2O"), Some(ResourceType::CatalyzedGhodiumAcid));
    assert_eq!(ResourceType::from_resource_string("unobtainium"), None);
}

fn store_of(amounts: &[(ResourceType, i32)]) -> Store {
    let mut store = Store::new();
    for (resource, amount) in amounts {
        store.0.insert(*resource, *amount);
    }
    store
}

#[test]
fn store_reading_drops_zero_and_null() {
    let store = Store::from_entries(vec![
        (ResourceType::Energy, Some(30)),
        (ResourceType::Power, Some(0)),
        (ResourceType::Hydrogen, None),
    ]);
    assert_eq!(store, store_of(&[(ResourceType::Energy, 30)]));
    assert_eq!(store.get(ResourceType::Energy), 30);
    assert_eq!(store.get(ResourceType::Power), 0);
    assert_eq!(store.iter(), vec![(ResourceType::Energy, 30)]);
}

#[test]
fn store_update_keeps_zero_and_null() {
    let update = StoreUpdate::from_entries(vec![
        (ResourceType::Energy, Some(0)),
        (ResourceType::Power, None),
        (ResourceType::Oxygen, Some(5)),
    ]);
    assert_eq!(update.0.get(ResourceType::Energy), Some(0));
    assert_eq!(update.0.get(ResourceType::Power), Some(0));
    assert_eq!(update.0.get(ResourceType::Oxygen), Some(5));
}

#[test]
fn store_update_removes_zero_amounts() {
    let mut store = store_of(&[(ResourceType::Energy, 30), (ResourceType::Power, 2)]);
    store.apply_update(StoreUpdate::from_entries(vec![
        (ResourceType::Energy, Some(0)),
        (ResourceType::Oxygen, Some(5)),
    ]));
    assert_eq!(store, store_of(&[(ResourceType::Power, 2), (ResourceType::Oxygen, 5)]));
}

#[test]
fn store_create_leaves_out_zeros() {
    let created = Store::create_from_update(StoreUpdate::from_entries(vec![
        (ResourceType::Energy, Some(0)),
        (ResourceType::Oxygen, Some(5)),
    ]))
    .unwrap();
    assert_eq!(created, store_of(&[(ResourceType::Oxygen, 5)]));
}

#[test]
fn store_equality_ignores_order() {
    assert_eq!(
        store_of(&[(ResourceType::Energy, 1), (ResourceType::Power, 2)]),
        store_of(&[(ResourceType::Power, 2), (ResourceType::Energy, 1)])
    );
    assert_ne!(store_of(&[(ResourceType::Energy, 1)]), store_of(&[(ResourceType::Energy, 2)]));
}

#[test]
fn vec_partial_update_appends_and_ignores() {
    let mut v: Vec<u32> = vec![1, 2, 3];
    v.apply_update(VecUpdate::PartialObj(VecPartialUpdate(vec![(1, 20), (3, 4), (7, 9)])));
    assert_eq!(v, vec![1, 20, 3, 4]);
    v.apply_update(VecUpdate::Array(vec![5]));
    assert_eq!(v, vec![5]);
    assert_eq!(<Vec<u32>>::create_from_update(VecUpdate::PartialObj(VecPartialUpdate(vec![]))), None);
}

#[test]
fn vec_partial_update_visitor_keys() {
    let mut visitor: VecPartialUpdateVisitor<u32> = VecPartialUpdateVisitor::new();
    assert_eq!(visitor.visit_entry("0", 7), Ok(()));
    assert_eq!(visitor.visit_entry("+2", 9), Ok(()));
    assert_eq!(visitor.visit_entry("x", 9), Err(VecIndexKeyError));
    let VecPartialUpdate(entries) = visitor.finish();
    assert_eq!(entries, vec![(0, 7), (2, 9)]);
}

#[test]
fn option_updates() {
    let mut o: Option<u32> = None;
    o.apply_update(Some(3));
    assert_eq!(o, Some(3));
    o.apply_update(None);
    assert_eq!(o, None);
}

#[test]
fn controller_levels() {
    assert_eq!(StructureController::progress_required_at_level(1), Some(200));
    assert_eq!(StructureController::progress_required_at_level(7), Some(10935000));
    assert_eq!(StructureController::progress_required_at_level(8), None);
    assert_eq!(StructureController::progress_required_at_level(0), None);
    assert_eq!(StructureController::total_downgrade_time_at_level(8), Some(150000));
    assert_eq!(StructureController::total_downgrade_time_at_level(2), Some(5000));
    assert_eq!(StructureController::total_downgrade_time_at_level(9), None);
}

fn sample_source() -> Source {
    Source {
        id: "57ef9dba86f108ae6e60e2fc".to_owned(),
        room: RoomName::new("E4S61").unwrap(),
        x: 26,
        y: 9,
        energy: 260,
        energy_capacity: 3000,
        invader_harvested: 29240,
        next_regeneration_time: Some(19894026),
        ticks_to_regeneration: 300,
    }
}

#[test]
fn known_room_object_accessors() {
    let obj = KnownRoomObject::Source(sample_source());
    assert_eq!(obj.x(), 26);
    assert_eq!(obj.y(), 9);
    assert_eq!(obj.id(), "57ef9dba86f108ae6e60e2fc");
    assert_eq!(obj.room(), RoomName::new("E4S61").unwrap());
}

#[test]
fn known_room_object_updates_of_its_kind() {
    let mut obj = KnownRoomObject::Source(sample_source());
    let update = SourceUpdate { energy: Some(0), next_regeneration_time: Some(None), ..Default::default() };
    assert_eq!(obj.update(KnownRoomObjectUpdate::Source(update)), Ok(()));
    match &obj {
        KnownRoomObject::Source(s) => {
            assert_eq!(s.energy, 0);
            assert_eq!(s.next_regeneration_time, None);
            assert_eq!(s.energy_capacity, 3000);
        }
        other => panic!("unexpected {:?}", other),
    }
}

#[test]
fn known_room_object_refuses_other_kind() {
    let mut obj = KnownRoomObject::Source(sample_source());
    let update = StructureRoadUpdate { x: Some(1), ..Default::default() };
    assert_eq!(obj.update(KnownRoomObjectUpdate::Road(update)), Err(UpdateKindMismatch));
    assert_eq!(obj, KnownRoomObject::Source(sample_source()));
}

#[test]
fn struct_created_only_from_full_update() {
    let partial = StructureRoadUpdate { x: Some(1), ..Default::default() };
    assert_eq!(StructureRoad::create_from_update(partial), None);
    let full = StructureRoadUpdate {
        id: Some("r".to_string()),
        room: Some(RoomName::new("W1N1").unwrap()),
        x: Some(1),
        y: Some(2),
        hits: Some(3),
        hits_max: Some(4),
        next_decay_time: Some(5),
        notify_when_attacked: Some(true),
    };
    assert_eq!(
        StructureRoad::create_from_update(full),
        Some(StructureRoad {
            id: "r".to_string(),
            room: RoomName::new("W1N1").unwrap(),
            x: 1,
            y: 2,
            hits: 3,
            hits_max: 4,
            next_decay_time: 5,
            notify_when_attacked: true,
        })
    );
}

#[test]
fn parse_resource() {
    // {"_id": "596990a3165c8c77de71ecf1", "energy": 7, "resourceType": "energy",
    //  "room": "W65N19", "type": "energy", "x": 8, "y": 34}
    let mut fields = ResourceFields::new();
    let keys = ["_id", "energy", "resourceType", "room", "type", "x", "y"];
    for key in keys.iter() {
        let value = match ResourceField::from_key(key) {
            ResourceField::Id => ResourceFieldValue::Id("596990a3165c8c77de71ecf1".to_string()),
            ResourceField::Room => ResourceFieldValue::Room(RoomName::new("W65N19").unwrap()),
            ResourceField::X => ResourceFieldValue::X(8),
            ResourceField::Y => ResourceFieldValue::Y(34),
            ResourceField::ResourceType => ResourceFieldValue::ResourceType(ResourceType::Energy),
            ResourceField::Other(t) => ResourceFieldValue::Amount(t, 7),
            ResourceField::Ignored => ResourceFieldValue::Ignored,
        };
        fields.accept(value).unwrap();
    }
    let obj = fields.finish().unwrap();
    assert_eq!(obj.id, "596990a3165c8c77de71ecf1");
    assert_eq!(obj.room, RoomName::new("W65N19").unwrap());
    assert_eq!((obj.x, obj.y), (8, 34));
    assert_eq!(obj.resource_type, ResourceType::Energy);
    assert_eq!(obj.amount, 7);
}

#[test]
fn resource_field_keys() {
    assert_eq!(ResourceField::from_key("_id"), ResourceField::Id);
    assert_eq!(ResourceField::from_key("resourceType"), ResourceField::ResourceType);
    assert_eq!(ResourceField::from_key("X"), ResourceField::Other(ResourceType::Catalyst));
    assert_eq!(ResourceField::from_key("x"), ResourceField::X);
    assert_eq!(ResourceField::from_key("type"), ResourceField::Ignored);
}

#[test]
fn resource_errors() {
    let mut fields = ResourceFields::new();
    fields.accept(ResourceFieldValue::X(1)).unwrap();
    assert_eq!(
        fields.accept(ResourceFieldValue::X(2)),
        Err(ResourceError::DuplicateField(ResourceFieldName::X))
    );
    assert_eq!(
        fields.clone().finish().unwrap_err(),
        ResourceError::MissingField(ResourceFieldName::Id)
    );
    let mut fields = ResourceFields::new();
    fields.accept(ResourceFieldValue::Id("a".to_string())).unwrap();
    fields.accept(ResourceFieldValue::Room(RoomName::new("W1N1").unwrap())).unwrap();
    fields.accept(ResourceFieldValue::X(1)).unwrap();
    fields.accept(ResourceFieldValue::Y(1)).unwrap();
    fields.accept(ResourceFieldValue::ResourceType(ResourceType::Energy)).unwrap();
    fields.accept(ResourceFieldValue::Amount(ResourceType::Power, 3)).unwrap();
    assert_eq!(
        fields.finish().unwrap_err(),
        ResourceError::TypeMismatch { declared: ResourceType::Energy, found: ResourceType::Power }
    );
}

#[test]
fn resource_update_skips_null_amount() {
    let mut fields = ResourceUpdateFields::new();
    fields.accept(ResourceUpdateFieldValue::Amount(None)).unwrap();
    fields.accept(ResourceUpdateFieldValue::Amount(Some(4))).unwrap();
    assert_eq!(
        fields.accept(ResourceUpdateFieldValue::Amount(Some(5))),
        Err(ResourceError::DuplicateField(ResourceFieldName::Amount))
    );
    assert_eq!(fields.update.amount, Some(4));
    assert_eq!(fields.update.id, None);
}

/// A coordinate that the server sent as a string.
fn coord(text: &str) -> u32 {
    coordinate_from_text(text).unwrap()
}

#[test]
fn string_coords_edge_case() {
    // Sometimes the official server gives strings as coordinates rather than integers.
    let mut visitor = RoomMapViewUpdateVisitor::new();
    visitor.visit_entry("w".to_string(), vec![(31, 18), (9, 8), (13, 8), (26, 2), (27, 2), (28, 2), (31, 2), (32, 2), (35, 2), (38, 2), (39, 2), (40, 2), (42, 2), (43, 2), (44, 2), (45, 2), (47, 8), (47, 9), (47, 14), (47, 15), (47, 17), (47, 19), (47, 20), (47, 21), (47, 26), (47, 27), (47, 28), (47, 29), (47, 30), (47, 31), (47, 32), (47, 33), (47, 37), (47, 38), (47, 39), (47, 40), (47, 43), (2, 28), (2, 29), (2, 31), (2, 32), (2, 35), (2, 36), (2, 37), (2, 38), (2, 39), (2, 40), (2, 44), (2, 45), (32, 16), (2, 41), (32, 17), (31, 15), (8, 8), (11, 8), (12, 8), (15, 4), (15, 6), (25, 2), (33, 2), (34, 2), (36, 2), (37, 2), (41, 2), (47, 10), (47, 11), (47, 16), (47, 18), (47, 24), (47, 25), (47, 34), (47, 35), (47, 36), (47, 44), (47, 45), (36, 47), (37, 47), (39, 47), (41, 47), (42, 47), (45, 47), (38, 47), (40, 47), (43, 47), (44, 47), (28, 14), (17, 47), (14, 47), (13, 47), (12, 47), (11, 47), (10, 47), (9, 47), (8, 47), (7, 47), (6, 47), (5, 47), (33, 15), (33, 16), (47, 22), (47, 23), (47, 46), (33, 1)]);
    visitor.visit_entry("r".to_string(), vec![]);
    visitor.visit_entry("pb".to_string(), vec![]);
    visitor.visit_entry("p".to_string(), vec![]);
    visitor.visit_entry("s".to_string(), vec![(26, 38), (31, 16)]);
    visitor.visit_entry("c".to_string(), vec![(30, 15)]);
    visitor.visit_entry("m".to_string(), vec![(15, 7)]);
    visitor.visit_entry("k".to_string(), vec![]);
    visitor.visit_entry("54d8d6bf9facf3600349ba3d".to_string(), vec![(28, 26), (31, 13), (29, 28), (27, 27), (30, 21), (27, 22), (33, 22), (27, 23), (24, 23), (30, 25), (31, 26), (31, 11), (31, 27), (30, 28), (28, 27), (27, 28), (25, 24), (26, 29), (26, 26), (36, 12), (34, 11), (35, 12), (35, 10), (36, 11), (36, 9), (30, 22), (29, 22), (24, 22), (26, 24), (25, 26), (24, 27), (25, 29), (24, 28), (26, 21), (32, 23), (15, 7), (30, 13), (29, 13), (37, 10), (36, 18), (34, 10), (35, 9), (37, 11), (27, 37), (30, 11), (31, 23), (33, 21), (32, 14), (37, 17), (29, 11), (28, 24), (33, 20), (23, 20), (32, 27), (33, 29), (33, 28), (32, 28), (30, 29), (31, 29), (32, 30), (31, 30), (25, 30), (23, 28), (24, 30), (31, 20), (25, 21), (29, 23), (30, 24), (33, 30), (23, 21), (26, 25), (25, 20), (23, 30), (24, 20), (23, 22), (31, 24), (26, 28), (25, 27), (30, 26), (29, 27), (31, 21), (32, 22), (32, 20), (25, 23), (26, 22), (27, 25), (29, 25), (29, 12), (28, 11), (35, 17), (coord("23"), coord("29"))]);
    let update = visitor.update;
    assert_eq!(update.walls.len(), 103);
    assert_eq!(update.sources, vec![(26, 38), (31, 16)]);
    assert_eq!(update.controllers, vec![(30, 15)]);
    assert_eq!(update.minerals, vec![(15, 7)]);
    assert!(update.roads.is_empty() && update.portals.is_empty() && update.keeper_lairs.is_empty());
    assert_eq!(update.users_objects.len(), 1);
    assert_eq!(update.users_objects[0].0, "54d8d6bf9facf3600349ba3d");
    assert_eq!(update.users_objects[0].1.last(), Some(&(23, 29)));
}

#[test]
fn map_view_from_entries() {
    let update = RoomMapViewUpdate::from_entries(vec![
        ("pb".to_string(), vec![(1, 1)]),
        ("u1".to_string(), vec![(2, 2)]),
        ("pb".to_string(), vec![(3, 3)]),
        ("u2".to_string(), vec![]),
    ]);
    assert_eq!(update.power_or_power_bank, vec![(3, 3)]);
    assert_eq!(
        update.users_objects,
        vec![("u1".to_string(), vec![(2, 2)]), ("u2".to_string(), vec![])]
    );
    assert_eq!(coordinate_from_text("x"), None);
    assert_eq!(coordinate_from_text("4294967296"), None);
}

#[test]
fn console_updates() {
    let u = UserConsoleUpdate::from_parts(Some("boom".to_string()), None, Some("shard1".to_string()))
        .unwrap();
    assert_eq!(u.shard(), Some("shard1"));
    assert!(matches!(&u, UserConsoleUpdate::Error { message, .. } if message == "boom"));
    let u = UserConsoleUpdate::from_parts(None, Some((vec!["a".to_string()], vec![])), None).unwrap();
    assert_eq!(u.shard(), None);
    assert!(matches!(&u, UserConsoleUpdate::Messages { log_messages, .. } if log_messages.len() == 1));
    assert_eq!(
        UserConsoleUpdate::from_parts(Some("e".to_string()), Some((vec![], vec![])), None).unwrap_err(),
        UserConsoleError::Both
    );
    assert_eq!(UserConsoleUpdate::from_parts(None, None, None).unwrap_err(), UserConsoleError::Neither);
}

#[test]
fn websocket_schemes() {
    assert_eq!(websocket_scheme("http"), Some("ws"));
    assert_eq!(websocket_scheme("https"), Some("wss"));
    assert_eq!(websocket_scheme("ftp"), None);
}

#[test]
fn session_paths() {
    assert_eq!(session_path(7, b"abcdefgh"), "../socket/0007/abcdefgh/websocket");
    assert_eq!(session_path(999, b"z0123455"), "../socket/0999/z0123455/websocket");
}

#[test]
fn transform_official_url() {
    let url = transform_url("https://screeps.com/api/").unwrap();
    let text = url.as_str();
    assert!(text.starts_with("wss://screeps.com/socket/"));
    assert!(text.ends_with("/websocket"));
    let middle = &text["wss://screeps.com/socket/".len()..text.len() - "/websocket".len()];
    let (server, session) = middle.split_at(4);
    assert!(server.chars().all(|c| c.is_ascii_digit()));
    assert_eq!(session.len(), 9);
    assert!(session[1..].bytes().all(|b| (b'a'..=b'z').contains(&b) || (b'0'..=b'5').contains(&b)));
}

#[test]
fn transform_rejects_bad_urls() {
    assert!(matches!(transform_url("not a url"), Err(UrlError::Parse { url, .. }) if url == "not a url"));
    assert!(matches!(transform_url("ftp://screeps.com/api/"), Err(UrlError::WrongScheme { scheme, .. }) if scheme == "ftp"));
    assert_eq!(
        transform_url("ftp://x/").unwrap_err().description(),
        "expected HTTP or HTTPS url, found a different scheme"
    );
}

#[test]
fn known_room_object_moves() {
    let mut obj = KnownRoomObject::Source(sample_source());
    let update = SourceUpdate { x: Some(40), ..Default::default() };
    obj.update(KnownRoomObjectUpdate::Source(update)).unwrap();
    assert_eq!((obj.x(), obj.y()), (40, 9));
}

#[test]
fn transform_http_url() {
    let url = transform_url("http://localhost:21025/api/").unwrap();
    let text = url.as_str();
    assert!(text.starts_with("ws://localhost:21025/socket/"));
    assert!(text.ends_with("/websocket"));
    assert_eq!(url.as_url().scheme(), "ws");
    assert_eq!(url.into_url().host_str(), Some("localhost"));
}

#[test]
fn transform_keeps_wrong_scheme() {
    match transform_url("FTP://screeps.com/api/") {
        Err(UrlError::WrongScheme { scheme, .. }) => assert_eq!(scheme, "ftp"),
        other => panic!("unexpected {:?}", other.map(|u| u.as_str().to_string())),
    }
}

#[test]
fn vec_whole_list_update() {
    let mut v: Vec<Option<u32>> = vec![Some(1)];
    v.apply_update(VecUpdate::Array(vec![None, Some(2), Some(3)]));
    assert_eq!(v, vec![None, Some(2), Some(3)]);
}

#[test]
fn url_error_messages() {
    let e = transform_url("ftp://x/").unwrap_err();
    assert_eq!(e.to_string(), "expected HTTP or HTTPS url, found ftp | url: ftp://x/");
    let e = transform_url("not a url").unwrap_err();
    assert_eq!(e.to_string(), "URL parse error: relative URL without a base | url: not a url");
    assert_eq!(e.cause(), Some(&UrlParseError::RelativeUrlWithoutBase));
    let e = transform_url("http://x:99999/").unwrap_err();
    assert_eq!(e.cause(), Some(&UrlParseError::InvalidPort));
}

#[test]
fn url_parse_error_kinds_from_messages() {
    let kinds = [
        UrlParseError::EmptyHost,
        UrlParseError::IdnaError,
        UrlParseError::InvalidPort,
        UrlParseError::InvalidIpv4Address,
        UrlParseError::InvalidIpv6Address,
        UrlParseError::InvalidDomainCharacter,
        UrlParseError::RelativeUrlWithoutBase,
        UrlParseError::RelativeUrlWithCannotBeABaseBase,
        UrlParseError::SetHostOnCannotBeABaseUrl,
        UrlParseError::Overflow,
    ];
    for k in kinds {
        assert_eq!(UrlParseError::from_message(&k.message()), k);
    }
    assert_eq!(UrlParseError::InvalidPort.message(), "invalid port number");
    assert_eq!(UrlParseError::Other.message(), "URL parse error");
    assert_eq!(UrlParseError::from_message("a kind added later"), UrlParseError::Other);
}

fn members(m: &[(&str, &str)]) -> Vec<(String, String)> {
    m.iter().map(|(k, v)| (k.to_string(), v.to_string())).collect()
}

#[test]
fn json_object_update_merges_members() {
    let mut v = JsonValue::Object(members(&[("a", "1"), ("b", "{\"x\":2}")]));
    v.apply_update(JsonValue::Object(members(&[("b", "3"), ("c", "null"), ("c", "4")])));
    assert_eq!(v, JsonValue::Object(members(&[("a", "1"), ("b", "3"), ("c", "4")])));
}

#[test]
fn json_update_replaces_other_values() {
    let mut v = JsonValue::Other("5".to_string());
    v.apply_update(JsonValue::Object(members(&[("a", "1")])));
    assert_eq!(v, JsonValue::Object(members(&[("a", "1")])));
    v.apply_update(JsonValue::Other("[1,2]".to_string()));
    assert_eq!(v, JsonValue::Other("[1,2]".to_string()));
    assert_eq!(
        JsonValue::create_from_update(JsonValue::Other("true".to_string())),
        Some(JsonValue::Other("true".to_string()))
    );
}
