use screeps_api::objects::{PowerCreepUpdate, PowerCreepActionsUpdate, PowerCreepActions, PowerCreep, ActionLogTarget, ActionLogTargetUpdate, ConstructionSite, ControllerReservation, ControllerReservationUpdate, Creep, CreepActions, CreepPart, CreepPartType, LabActionTarget, LabActionTargetUpdate, Mineral, PortalDestination, RoomSign, Source, SourceUpdate, SpawningCreep, SpawningCreepUpdate, StructureContainer, StructureController, StructureControllerUpdate, StructureExtension, StructureExtensionUpdate, StructureExtractor, StructureKeeperLair, StructureKeeperLairUpdate, StructureLab, StructureLabActions, StructureLabActionsUpdate, StructureLabUpdate, StructureLink, StructureLinkActions, StructureLinkActionsUpdate, StructureLinkUpdate, StructureNuker, StructureObserver, StructureObserverUpdate, StructurePortal, StructurePortalUpdate, StructurePowerBank, StructurePowerSpawn, StructureRampart, StructureRoad, StructureRoadUpdate, StructureSpawn, StructureSpawnUpdate, StructureStorage, StructureTerminal, StructureTower, StructureTowerActions, StructureTowerActionsUpdate, StructureTowerUpdate, StructureType, StructureWall, Tombstone, WallDecayTime};
use screeps_api::resources::ResourceType;
use screeps_api::room_name::RoomName;
use screeps_api::updatable::Updatable;
use screeps_api::store::{Store, StoreUpdate};
use screeps_api::updatable::Timespec;

/// A store holding exactly the given amounts.
fn store_of(amounts: &[(ResourceType, i32)]) -> Store {
    let mut store = Store::new();
    for (resource, amount) in amounts {
        store.0.insert(*resource, *amount);
    }
    store
}

#[test]
fn parse_simple_site() {
    let obj = ConstructionSite {
        id: "5ce54eadab500847fda00973".to_string(),
        room: RoomName::new("E9S32").unwrap(),
        x: 4,
        y: 25,
        user: "59cec9e20dd629146b767d96".to_string(),
        name: None,
        progress: 211,
        progress_total: 300,
        structure_type: StructureType::Road
    };

    assert_eq!(
        obj,
        ConstructionSite {
            id: "5ce54eadab500847fda00973".to_owned(),
            room: RoomName::new("E9S32").unwrap(),
            x: 4,
            y: 25,
            user: "59cec9e20dd629146b767d96".to_owned(),
            name: None,
            progress: 211,
            progress_total: 300,
            structure_type: StructureType::Road,
        }
    );
}

#[test]
fn parse_container() {
    let obj = StructureContainer {
        id: "5c229f613f9ca9206752338c".to_string(),
        room: RoomName::new("E9S32").unwrap(),
        x: 20,
        y: 24,
        hits: 230000,
        hits_max: 250000,
        capacity: 2000,
        next_decay_time: 30246717,
        notify_when_attacked: true,
        store: Store::from_entries(vec![(ResourceType::Energy, Some(447)), (ResourceType::CatalyzedLemergiumAlkalide, Some(0)), (ResourceType::Zynthium, Some(5)), (ResourceType::CatalyzedGhodiumAlkalide, Some(0)), (ResourceType::CatalyzedUtriumAcid, Some(0)), (ResourceType::CatalyzedZynthiumAlkalide, Some(0)), (ResourceType::GhodiumOxide, Some(0)), (ResourceType::KeaniumOxide, Some(0)), (ResourceType::ZynthiumHydride, Some(0)), (ResourceType::UtriumHydride, Some(0)), (ResourceType::UtriumOxide, Some(0))])
    };

    match obj {
        StructureContainer {
            capacity: 2000,
            hits: 230000,
            hits_max: 250000,
            next_decay_time: 30246717,
            notify_when_attacked: true,
            x: 20,
            y: 24,
            ref id,
            ref store,
            ..
        } if id == "5c229f613f9ca9206752338c" && *store == store_of(&[(ResourceType::Energy, 447), (ResourceType::Zynthium, 5)]) => (),
        other => panic!(
            "expected pre-set StructureContainer to match, found {:#?}",
            other
        ),
    }

    assert_eq!(
        {
            let mut contents = obj.resources();
            contents.sort();
            contents
        },
        {
            let mut expected = vec![(ResourceType::Energy, 447), (ResourceType::Zynthium, 5)];
            expected.sort();
            expected
        }
    );
}

#[test]
fn controller_parse_controller_and_update() {
    let mut obj = StructureController {
        id: "57ef9dba86f108ae6e60e2fd".to_string(),
        room: RoomName::new("E4S61").unwrap(),
        x: 16,
        y: 39,
        hits: 0,
        hits_max: 0,
        progress: 0,
        progress_total: 0,
        level: 8,
        reservation: None,
        safe_mode: None,
        safe_mode_available: 7,
        safe_mode_cooldown: 17083195,
        downgrade_time: Some(20020430),
        sign: Some(RoomSign {
                game_time_set: 19869070,
                time_set: Timespec { sec: 1498254694977, nsec: 0 },
                user_id: "57874d42d0ae911e3bd15bbc".to_string(),
                text: "◯".to_string()
        }),
        upgrade_blocked: None,
        user: Some("57874d42d0ae911e3bd15bbc".to_string())
    };

    assert_eq!(
        obj,
        StructureController {
            id: "57ef9dba86f108ae6e60e2fd".to_owned(),
            room: RoomName::new("E4S61").unwrap(),
            x: 16,
            y: 39,
            hits: 0,
            hits_max: 0,
            level: 8,
            progress: 0,
            progress_total: 0,
            reservation: None,
            safe_mode: None,
            safe_mode_available: 7,
            safe_mode_cooldown: 17083195,
            downgrade_time: Some(20020430),
            sign: Some(RoomSign {
                    text: "◯".to_owned(),
                    game_time_set: 19869070,
                    time_set: Timespec { sec: 1498254694977, nsec: 0 },
                    user_id: "57874d42d0ae911e3bd15bbc".to_owned(),
            }),
            upgrade_blocked: None,
            user: Some("57874d42d0ae911e3bd15bbc".to_owned()),
        }
    );

    obj.update(StructureControllerUpdate {
            safe_mode_available: Some(8),
            ..Default::default()
    });

    assert_eq!(
        obj,
        StructureController {
            id: "57ef9dba86f108ae6e60e2fd".to_owned(),
            room: RoomName::new("E4S61").unwrap(),
            x: 16,
            y: 39,
            hits: 0,
            hits_max: 0,
            level: 8,
            progress: 0,
            progress_total: 0,
            reservation: None,
            safe_mode: None,
            safe_mode_available: 8,
            safe_mode_cooldown: 17083195,
            downgrade_time: Some(20020430),
            sign: Some(RoomSign {
                    text: "◯".to_owned(),
                    game_time_set: 19869070,
                    time_set: Timespec { sec: 1498254694977, nsec: 0 },
                    user_id: "57874d42d0ae911e3bd15bbc".to_owned(),
            }),
            upgrade_blocked: None,
            user: Some("57874d42d0ae911e3bd15bbc".to_owned()),
        }
    );
}

#[test]
fn controller_parse_controller_and_update_reserved() {
    let mut obj = StructureController {
        id: "579fa94c0700be0674d2f15a".to_string(),
        room: RoomName::new("W12S55").unwrap(),
        x: 22,
        y: 37,
        hits: 0,
        hits_max: 0,
        progress: 0,
        progress_total: 0,
        level: 0,
        reservation: Some(ControllerReservation {
                user: "57874d42d0ae911e3bd15bbc".to_string(),
                end_time: 20158024
        }),
        safe_mode: None,
        safe_mode_available: 0,
        safe_mode_cooldown: 16611615,
        downgrade_time: None,
        sign: None,
        upgrade_blocked: None,
        user: None
    };

    assert_eq!(
        obj,
        StructureController {
            id: "579fa94c0700be0674d2f15a".to_owned(),
            room: RoomName::new("W12S55").unwrap(),
            x: 22,
            y: 37,
            downgrade_time: None,
            hits: 0,
            hits_max: 0,
            level: 0,
            progress: 0,
            progress_total: 0,
            reservation: Some(ControllerReservation {
                    user: "57874d42d0ae911e3bd15bbc".to_owned(),
                    end_time: 20158024,
            }),
            safe_mode: None,
            safe_mode_available: 0,
            safe_mode_cooldown: 16611615,
            upgrade_blocked: None,
            user: None,
            sign: None,
        }
    );

    obj.update(StructureControllerUpdate {
            reservation: Some(Some(ControllerReservationUpdate {
                        end_time: Some(20158029),
                        ..Default::default()
            })),
            ..Default::default()
    });

    assert_eq!(
        obj,
        StructureController {
            id: "579fa94c0700be0674d2f15a".to_owned(),
            room: RoomName::new("W12S55").unwrap(),
            x: 22,
            y: 37,
            downgrade_time: None,
            hits: 0,
            hits_max: 0,
            level: 0,
            progress: 0,
            progress_total: 0,
            reservation: Some(ControllerReservation {
                    user: "57874d42d0ae911e3bd15bbc".to_owned(),
                    end_time: 20158029,
            }),
            safe_mode: None,
            safe_mode_available: 0,
            safe_mode_cooldown: 16611615,
            upgrade_blocked: None,
            user: None,
            sign: None,
        }
    );
}

#[test]
fn controller_parse_controller_updates_can_remove_optional_properties() {
    let mut obj = StructureController {
        id: "57ef9dba86f108ae6e60e2fd".to_owned(),
        room: RoomName::new("E4S61").unwrap(),
        x: 16,
        y: 39,
        hits: 0,
        hits_max: 0,
        level: 8,
        progress: 0,
        progress_total: 0,
        reservation: None,
        safe_mode: None,
        safe_mode_available: 7,
        safe_mode_cooldown: 17083195,
        downgrade_time: Some(20020430),
        sign: Some(RoomSign {
                text: "◯".to_owned(),
                game_time_set: 19869070,
                time_set: Timespec { sec: 1498254694977, nsec: 0 },
                user_id: "57874d42d0ae911e3bd15bbc".to_owned(),
        }),
        upgrade_blocked: None,
        user: Some("57874d42d0ae911e3bd15bbc".to_owned()),
    };

    obj.update(StructureControllerUpdate {
            sign: Some(None),
            ..Default::default()
    });

    assert_eq!(
        obj,
        StructureController {
            id: "57ef9dba86f108ae6e60e2fd".to_owned(),
            room: RoomName::new("E4S61").unwrap(),
            x: 16,
            y: 39,
            hits: 0,
            hits_max: 0,
            level: 8,
            progress: 0,
            progress_total: 0,
            reservation: None,
            safe_mode: None,
            safe_mode_available: 7,
            safe_mode_cooldown: 17083195,
            downgrade_time: Some(20020430),
            sign: None,
            upgrade_blocked: None,
            user: Some("57874d42d0ae911e3bd15bbc".to_owned()),
        },
        "signal failure text"
    );
}

#[test]
fn parse_controller_with_very_few_fields() {
    // real data I found on the live server in shard3

    let obj = StructureController {
        id: "5bbcad499099fc012e6370bb".to_string(),
        room: RoomName::new("E6S31").unwrap(),
        x: 35,
        y: 27,
        hits: 0,
        hits_max: 0,
        progress: 0,
        progress_total: 0,
        level: 0,
        reservation: None,
        safe_mode: None,
        safe_mode_available: 0,
        safe_mode_cooldown: 0,
        downgrade_time: None,
        sign: None,
        upgrade_blocked: None,
        user: None
    };

    assert_eq!(
        obj,
        StructureController {
            id: "5bbcad499099fc012e6370bb".to_owned(),
            room: RoomName::new("E6S31").unwrap(),
            x: 35,
            y: 27,
            downgrade_time: None,
            hits: 0,
            hits_max: 0,
            level: 0,
            progress: 0,
            progress_total: 0,
            reservation: None,
            safe_mode: None,
            safe_mode_available: 0,
            safe_mode_cooldown: 0,
            upgrade_blocked: None,
            user: None,
            sign: None,
        }
    );
}

#[test]
fn parse_controller_with_null_safe_mode_cooldown() {
    let obj = StructureController {
        id: "5bbcad579099fc012e637271".to_string(),
        room: RoomName::new("E7S27").unwrap(),
        x: 17,
        y: 18,
        hits: 0,
        hits_max: 0,
        progress: 2722264,
        progress_total: 0,
        level: 6,
        reservation: None,
        safe_mode: Some(5990844),
        safe_mode_available: 4,
        safe_mode_cooldown: 0,
        downgrade_time: Some(7131716),
        sign: Some(RoomSign {
                game_time_set: 508258,
                time_set: Timespec { sec: 1540160091380, nsec: 0 },
                user_id: "583e2a4c445866cb4ad3117e".to_string(),
                text: "Territory of Metyrio".to_string()
        }),
        upgrade_blocked: None,
        user: Some("5cad043ff77d0b62a38318e7".to_string())
    };
    assert_eq!(
        obj,
        StructureController {
            id: "5bbcad579099fc012e637271".to_owned(),
            room: RoomName::new("E7S27").unwrap(),
            x: 17,
            y: 18,
            downgrade_time: Some(7131716),
            hits: 0,
            hits_max: 0,
            level: 6,
            progress: 2722264,
            progress_total: 0,
            reservation: None,
            safe_mode: Some(5990844),
            safe_mode_available: 4,
            safe_mode_cooldown: 0,
            upgrade_blocked: None,
            user: Some("5cad043ff77d0b62a38318e7".to_owned()),
            sign: Some(RoomSign {
                    text: "Territory of Metyrio".to_owned(),
                    game_time_set: 508258,
                    time_set: Timespec { sec: 1540160091380, nsec: 0 },
                    user_id: "583e2a4c445866cb4ad3117e".to_owned(),
            }),
        }
    );
}

#[test]
fn handle_functionally_full_update() {
    let mut obj = StructureController {
        id: "5bbcad579099fc012e637271".to_owned(),
        room: RoomName::new("E7S27").unwrap(),
        x: 17,
        y: 18,
        downgrade_time: Some(7131716),
        hits: 0,
        hits_max: 0,
        level: 6,
        progress: 2722264,
        progress_total: 0,
        reservation: None,
        safe_mode: Some(5990844),
        safe_mode_available: 4,
        safe_mode_cooldown: 0,
        upgrade_blocked: None,
        user: Some("5cad043ff77d0b62a38318e7".to_owned()),
        sign: Some(RoomSign {
                text: "Territory of Metyrio".to_owned(),
                game_time_set: 508258,
                time_set: Timespec { sec: 1540160091380, nsec: 0 },
                user_id: "583e2a4c445866cb4ad3117e".to_owned(),
        }),
    };

    obj.update(StructureControllerUpdate {
            id: Some("5bbcad579099fc012e637271".to_string()),
            room: Some(RoomName::new("E7S27").unwrap()),
            x: Some(10),
            y: Some(34),
            hits: Some(0),
            hits_max: Some(0),
            progress: Some(0),
            progress_total: Some(0),
            level: Some(0),
            safe_mode: Some(None),
            safe_mode_available: Some(0),
            safe_mode_cooldown: Some(0),
            downgrade_time: Some(None),
            upgrade_blocked: Some(None),
            user: Some(None),
            ..Default::default()
    });
}

#[test]
fn creep_parse_creep() {
    let obj = Creep {
        id: "5e117142fadd09a383ffdc99".to_string(),
        room: RoomName::new("E44S19").unwrap(),
        x: 26,
        y: 7,
        hits: 400,
        hits_max: 400,
        user: "57874d42d0ae911e3bd15bbc".to_string(),
        spawning: false,
        capacity: 50,
        notify_when_attacked: true,
        name: "w9g1gpnN".to_string(),
        fatigue: 0,
        age_time: Some(23469491),
        body: vec![CreepPart {
                hits: 100,
                part_type: CreepPartType::Move,
                boost: None
            }, CreepPart {
                hits: 100,
                part_type: CreepPartType::Move,
                boost: None
            }, CreepPart {
                hits: 100,
                part_type: CreepPartType::Carry,
                boost: None
            }, CreepPart {
                hits: 100,
                part_type: CreepPartType::Work,
                boost: None
        }],
        action_log: CreepActions {
            harvest: None,
            build: None,
            repair: None,
            attack: None,
            heal: None,
            ranged_attack: None,
            ranged_heal: None,
            ranged_mass_attack: None,
            reserve_controller: None,
            upgrade_controller: Some(ActionLogTarget {
                    x: 27,
                    y: 8
            }),
            attacked: None,
            healed: None,
            say: None
        },
        store: Store::from_entries(vec![(ResourceType::Energy, Some(13))])
    };

    match obj {
        Creep {
            ref id,
            ref room,
            x: 26,
            y: 7,
            capacity: 50,
            hits: 400,
            hits_max: 400,
            age_time: Some(23469491),
            ref name,
            notify_when_attacked: true,
            spawning: false,
            action_log:
            CreepActions {
                attack: None,
                attacked: None,
                build: None,
                harvest: None,
                heal: None,
                healed: None,
                ranged_attack: None,
                ranged_heal: None,
                ranged_mass_attack: None,
                repair: None,
                reserve_controller: None,
                say: None,
                upgrade_controller: Some(ActionLogTarget { x: 27, y: 8 }),
            },
            ref body,
            ref user,
            ..
        } => {
            if user != "57874d42d0ae911e3bd15bbc"
            || id != "5e117142fadd09a383ffdc99"
            // The creep's JSON places it in room E44S19, so that is the room it holds.
            || *room != RoomName::new("E44S19").unwrap()
            || name != "w9g1gpnN"
            || body
            .iter()
            .map(|part| {
                    if part.part_type == CreepPartType::Carry {
                        1
                    } else {
                        0
                    }
            })
            .sum::<i32>()
            != 1
            || body
            .iter()
            .map(|part| {
                    if part.part_type == CreepPartType::Work {
                        1
                    } else {
                        0
                    }
            })
            .sum::<i32>()
            != 1
            || body
            .iter()
            .map(|part| {
                    if part.part_type == CreepPartType::Move {
                        1
                    } else {
                        0
                    }
            })
            .sum::<i32>()
            != 2
            || !body.iter().all(|part| {
                    part.part_type == CreepPartType::Move
                    || part.part_type == CreepPartType::Work
                    || part.part_type == CreepPartType::Carry
            })
            {
                panic!("some fields wrong from pre-set Creep: {:#?}", obj);
            }
        }
        other => panic!("expected pre-set Creep to match, found {:#?}", other),
    }

    // The creep's store holds 13 energy, which is what it carries.
    assert_eq!(obj.carry_contents(), vec![(ResourceType::Energy, 13)]);
}

#[test]
fn parse_extension_and_update() {
    let mut obj = StructureExtension {
        id: "5bef67919e7eaa3015aadfe2".to_string(),
        room: RoomName::new("E9S32").unwrap(),
        x: 21,
        y: 24,
        hits: 1000,
        hits_max: 1000,
        user: "589f5265d25357e8253e3ee8".to_string(),
        disabled: false,
        store: Store::from_entries(vec![(ResourceType::Energy, Some(200))]),
        capacity_resource: Store::from_entries(vec![(ResourceType::Energy, Some(200))]),
        notify_when_attacked: true
    };

    assert_eq!(
        obj,
        StructureExtension {
            room: RoomName::new("E9S32").unwrap(),
            x: 21,
            y: 24,
            id: "5bef67919e7eaa3015aadfe2".to_owned(),
            store: store_of(&[(ResourceType::Energy, 200)]),
            capacity_resource: store_of(&[(ResourceType::Energy, 200)]),
            hits: 1000,
            hits_max: 1000,
            notify_when_attacked: true,
            disabled: false,
            user: "589f5265d25357e8253e3ee8".to_owned(),
        }
    );

    obj.update(StructureExtensionUpdate {
            store: Some(StoreUpdate::from_entries(vec![(ResourceType::Energy, Some(0))])),
            notify_when_attacked: Some(false),
            ..Default::default()
    });

    assert_eq!(
        obj,
        StructureExtension {
            room: RoomName::new("E9S32").unwrap(),
            x: 21,
            y: 24,
            id: "5bef67919e7eaa3015aadfe2".to_owned(),
            store: Store::new(),
            capacity_resource: store_of(&[(ResourceType::Energy, 200)]),
            hits: 1000,
            hits_max: 1000,
            notify_when_attacked: false,
            disabled: false,
            user: "589f5265d25357e8253e3ee8".to_owned(),
        }
    );
}

#[test]
fn parse_extractor_sample() {
    let obj = StructureExtractor {
        id: "5cb56020f7d8904f5df7a1ae".to_string(),
        room: RoomName::new("E8S29").unwrap(),
        x: 29,
        y: 40,
        hits: 500,
        hits_max: 500,
        user: "5ca80c8f3c33e30c8e85555d".to_string(),
        disabled: false,
        notify_when_attacked: true
    };

    assert_eq!(
        obj,
        StructureExtractor {
            room: RoomName::new("E8S29").unwrap(),
            x: 29,
            y: 40,
            id: "5cb56020f7d8904f5df7a1ae".to_owned(),
            hits: 500,
            hits_max: 500,
            notify_when_attacked: true,
            disabled: false,
            user: "5ca80c8f3c33e30c8e85555d".to_owned(),
        }
    );
}

#[test]
fn parse_keeper_lair_spawned_and_update() {
    let mut obj = StructureKeeperLair {
        id: "55c34a6b5be41a0a6e80c325".to_string(),
        room: RoomName::new("E4N4").unwrap(),
        x: 16,
        y: 1,
        next_spawn_time: None
    };

    assert_eq!(obj, StructureKeeperLair {
            room: RoomName::new("E4N4").unwrap(),
            x: 16,
            y: 1,
            id: "55c34a6b5be41a0a6e80c325".to_owned(),
            next_spawn_time: None,
    });

    obj.update(StructureKeeperLairUpdate {
            next_spawn_time: Some(Some(20000000)),
            ..Default::default()
    });

    assert_eq!(obj, StructureKeeperLair {
            room: RoomName::new("E4N4").unwrap(),
            x: 16,
            y: 1,
            id: "55c34a6b5be41a0a6e80c325".to_owned(),
            next_spawn_time: Some(20000000),
    });

}

#[test]
fn parse_keeper_lair_spawning_and_update() {
    let mut obj = StructureKeeperLair {
        id: "55c34a6b5be41a0a6e80c6ce".to_string(),
        room: RoomName::new("W14S5").unwrap(),
        x: 22,
        y: 13,
        next_spawn_time: Some(20184048)
    };

    assert_eq!(obj, StructureKeeperLair {
            room: RoomName::new("W14S5").unwrap(),
            x: 22,
            y: 13,
            id: "55c34a6b5be41a0a6e80c6ce".to_owned(),
            next_spawn_time: Some(20184048),
    });

    obj.update(StructureKeeperLairUpdate {
            next_spawn_time: Some(None),
            ..Default::default()
    });

    assert_eq!(obj, StructureKeeperLair {
            room: RoomName::new("W14S5").unwrap(),
            x: 22,
            y: 13,
            id: "55c34a6b5be41a0a6e80c6ce".to_owned(),
            next_spawn_time: None,
    });
}

#[test]
fn parse_lab_and_updates() {
    let mut obj = StructureLab {
        id: "5aebc6e4ee797138fa7b4a4f".to_string(),
        room: RoomName::new("E9S32").unwrap(),
        x: 24,
        y: 17,
        hits: 500,
        hits_max: 500,
        user: "589f5265d25357e8253e3ee8".to_string(),
        disabled: false,
        store: Store::from_entries(vec![(ResourceType::Energy, Some(2000)), (ResourceType::CatalyzedZynthiumAlkalide, Some(0)), (ResourceType::CatalyzedKeaniumAlkalide, Some(0)), (ResourceType::KeaniumAlkalide, Some(0)), (ResourceType::KeaniumOxide, Some(0)), (ResourceType::CatalyzedLemergiumAlkalide, Some(0)), (ResourceType::CatalyzedUtriumAcid, Some(0)), (ResourceType::ZynthiumOxide, Some(0)), (ResourceType::Ghodium, Some(0)), (ResourceType::UtriumLemergite, Some(0)), (ResourceType::ZynthiumKeanite, Some(0)), (ResourceType::LemergiumOxide, Some(0)), (ResourceType::UtriumAcid, Some(0)), (ResourceType::UtriumHydride, Some(0)), (ResourceType::Hydroxide, Some(0)), (ResourceType::LemergiumAlkalide, Some(0)), (ResourceType::ZynthiumAlkalide, Some(0)), (ResourceType::ZynthiumAcid, Some(0)), (ResourceType::GhodiumAlkalide, Some(0)), (ResourceType::CatalyzedGhodiumAlkalide, Some(0)), (ResourceType::LemergiumAcid, Some(0)), (ResourceType::LemergiumHydride, Some(0)), (ResourceType::ZynthiumHydride, Some(0)), (ResourceType::CatalyzedZynthiumAcid, Some(0)), (ResourceType::GhodiumOxide, Some(0)), (ResourceType::CatalyzedLemergiumAcid, Some(0)), (ResourceType::UtriumOxide, Some(45)), (ResourceType::Catalyst, Some(0)), (ResourceType::Hydrogen, Some(0))]),
        capacity_resource: Store::from_entries(vec![(ResourceType::Energy, Some(2000)), (ResourceType::CatalyzedZynthiumAlkalide, None), (ResourceType::CatalyzedKeaniumAlkalide, None), (ResourceType::KeaniumAlkalide, None), (ResourceType::KeaniumOxide, None), (ResourceType::CatalyzedLemergiumAlkalide, None), (ResourceType::CatalyzedUtriumAcid, None), (ResourceType::ZynthiumOxide, None), (ResourceType::Ghodium, None), (ResourceType::UtriumLemergite, None), (ResourceType::ZynthiumKeanite, None), (ResourceType::LemergiumOxide, None), (ResourceType::UtriumAcid, None), (ResourceType::UtriumHydride, None), (ResourceType::Hydroxide, None), (ResourceType::LemergiumAlkalide, None), (ResourceType::ZynthiumAlkalide, None), (ResourceType::ZynthiumAcid, None), (ResourceType::GhodiumAlkalide, None), (ResourceType::CatalyzedGhodiumAlkalide, None), (ResourceType::LemergiumAcid, None), (ResourceType::LemergiumHydride, None), (ResourceType::ZynthiumHydride, None), (ResourceType::CatalyzedZynthiumAcid, None), (ResourceType::GhodiumOxide, None), (ResourceType::CatalyzedLemergiumAcid, None), (ResourceType::UtriumOxide, Some(3000)), (ResourceType::Catalyst, None), (ResourceType::Hydrogen, None)]),
        cooldown_time: 30246725,
        action_log: StructureLabActions {
            run_reaction: Some(LabActionTarget {
                    x1: 24,
                    y1: 16,
                    x2: 23,
                    y2: 15
            })
        },
        notify_when_attacked: false
    };

    assert_eq!(
        obj,
        StructureLab {
            room: RoomName::new("E9S32").unwrap(),
            x: 24,
            y: 17,
            id: "5aebc6e4ee797138fa7b4a4f".to_owned(),
            store: store_of(&[(ResourceType::Energy, 2000), (ResourceType::UtriumOxide, 45)]),
            capacity_resource: store_of(&[(ResourceType::Energy, 2000), (ResourceType::UtriumOxide, 3000)]),
            hits: 500,
            hits_max: 500,
            cooldown_time: 30246725,
            notify_when_attacked: false,
            disabled: false,
            action_log: StructureLabActions {
                run_reaction: Some(LabActionTarget {
                        x1: 24,
                        y1: 16,
                        x2: 23,
                        y2: 15,
                })
            },
            user: "589f5265d25357e8253e3ee8".to_owned(),
        }
    );

    obj.update(StructureLabUpdate {
            action_log: Some(StructureLabActionsUpdate {
                    run_reaction: Some(None),
                    ..Default::default()
            }),
            ..Default::default()
    });

    assert_eq!(obj.action_log.run_reaction, None);

    obj.update(StructureLabUpdate {
            store: Some(StoreUpdate::from_entries(vec![(ResourceType::UtriumOxide, Some(50))])),
            cooldown_time: Some(30246735),
            action_log: Some(StructureLabActionsUpdate {
                    run_reaction: Some(Some(LabActionTargetUpdate {
                                x1: Some(24),
                                y1: Some(16),
                                x2: Some(23),
                                y2: Some(15),
                                ..Default::default()
                    })),
                    ..Default::default()
            }),
            ..Default::default()
    });

    assert_eq!(
        obj.action_log,
        StructureLabActions {
            run_reaction: Some(LabActionTarget {
                    x1: 24,
                    y1: 16,
                    x2: 23,
                    y2: 15,
            }),
        }
    );

    obj.update(StructureLabUpdate {
            action_log: Some(StructureLabActionsUpdate {
                    run_reaction: Some(None),
                    ..Default::default()
            }),
            ..Default::default()
    });

    assert_eq!(
        obj,
        StructureLab {
            room: RoomName::new("E9S32").unwrap(),
            x: 24,
            y: 17,
            id: "5aebc6e4ee797138fa7b4a4f".to_owned(),
            store: store_of(&[(ResourceType::Energy, 2000), (ResourceType::UtriumOxide, 50)]),
            capacity_resource: store_of(&[(ResourceType::Energy, 2000), (ResourceType::UtriumOxide, 3000)]),
            hits: 500,
            hits_max: 500,
            cooldown_time: 30246735,
            notify_when_attacked: false,
            disabled: false,
            action_log: StructureLabActions { run_reaction: None },
            user: "589f5265d25357e8253e3ee8".to_owned(),
        }
    );
}

#[test]
fn parse_empty_lab() {
    let obj = StructureLab {
        id: "5d2aca5c5e41f216fb099492".to_string(),
        room: RoomName::new("W44S12").unwrap(),
        x: 24,
        y: 28,
        hits: 500,
        hits_max: 500,
        user: "5a8466038f866773f59fa6c8".to_string(),
        disabled: false,
        store: Store::from_entries(vec![(ResourceType::Energy, Some(2000)), (ResourceType::ZynthiumHydride, Some(0)), (ResourceType::UtriumHydride, Some(0)), (ResourceType::KeaniumOxide, Some(0)), (ResourceType::LemergiumOxide, Some(0)), (ResourceType::LemergiumHydride, Some(0)), (ResourceType::ZynthiumKeanite, Some(0)), (ResourceType::UtriumLemergite, Some(0)), (ResourceType::Ghodium, Some(0)), (ResourceType::ZynthiumOxide, Some(0)), (ResourceType::GhodiumOxide, Some(0)), (ResourceType::UtriumOxide, Some(0)), (ResourceType::Hydroxide, Some(0)), (ResourceType::UtriumAcid, Some(0)), (ResourceType::CatalyzedUtriumAcid, Some(0)), (ResourceType::KeaniumAlkalide, Some(0)), (ResourceType::LemergiumAlkalide, Some(0)), (ResourceType::CatalyzedKeaniumAlkalide, Some(0)), (ResourceType::GhodiumHydride, Some(0)), (ResourceType::CatalyzedLemergiumAlkalide, Some(0)), (ResourceType::ZynthiumAlkalide, Some(0)), (ResourceType::KeaniumHydride, Some(0)), (ResourceType::GhodiumAlkalide, Some(0)), (ResourceType::CatalyzedZynthiumAlkalide, Some(0)), (ResourceType::LemergiumAcid, Some(0)), (ResourceType::CatalyzedGhodiumAlkalide, Some(0)), (ResourceType::ZynthiumAcid, Some(0)), (ResourceType::CatalyzedLemergiumAcid, Some(0)), (ResourceType::CatalyzedZynthiumAcid, Some(0)), (ResourceType::KeaniumAcid, Some(0)), (ResourceType::GhodiumAcid, Some(0)), (ResourceType::CatalyzedKeaniumAcid, Some(0)), (ResourceType::UtriumAlkalide, Some(0)), (ResourceType::CatalyzedGhodiumAcid, Some(0)), (ResourceType::CatalyzedUtriumAlkalide, Some(0))]),
        capacity_resource: Store::from_entries(vec![(ResourceType::Energy, Some(2000)), (ResourceType::ZynthiumHydride, None), (ResourceType::UtriumHydride, None), (ResourceType::KeaniumOxide, None), (ResourceType::LemergiumOxide, None), (ResourceType::LemergiumHydride, None), (ResourceType::ZynthiumKeanite, None), (ResourceType::UtriumLemergite, None), (ResourceType::Ghodium, None), (ResourceType::ZynthiumOxide, None), (ResourceType::GhodiumOxide, None), (ResourceType::UtriumOxide, None), (ResourceType::Hydroxide, None), (ResourceType::UtriumAcid, None), (ResourceType::CatalyzedUtriumAcid, None), (ResourceType::KeaniumAlkalide, None), (ResourceType::LemergiumAlkalide, None), (ResourceType::CatalyzedKeaniumAlkalide, None), (ResourceType::GhodiumHydride, None), (ResourceType::CatalyzedLemergiumAlkalide, None), (ResourceType::ZynthiumAlkalide, None), (ResourceType::KeaniumHydride, None), (ResourceType::GhodiumAlkalide, None), (ResourceType::CatalyzedZynthiumAlkalide, None), (ResourceType::LemergiumAcid, None), (ResourceType::CatalyzedGhodiumAlkalide, None), (ResourceType::ZynthiumAcid, None), (ResourceType::CatalyzedLemergiumAcid, None), (ResourceType::CatalyzedZynthiumAcid, None), (ResourceType::KeaniumAcid, None), (ResourceType::GhodiumAcid, None), (ResourceType::CatalyzedKeaniumAcid, None), (ResourceType::UtriumAlkalide, None), (ResourceType::CatalyzedGhodiumAcid, None), (ResourceType::CatalyzedUtriumAlkalide, None)]),
        cooldown_time: 23464205,
        action_log: StructureLabActions {
            run_reaction: None
        },
        notify_when_attacked: true
    };

    assert_eq!(
        obj,
        StructureLab {
            room: RoomName::new("W44S12").unwrap(),
            x: 24,
            y: 28,
            id: "5d2aca5c5e41f216fb099492".to_owned(),
            store: store_of(&[(ResourceType::Energy, 2000)]),
            capacity_resource: store_of(&[(ResourceType::Energy, 2000)]),
            hits: 500,
            hits_max: 500,
            notify_when_attacked: true,
            disabled: false,
            cooldown_time: 23464205,
            action_log: StructureLabActions { run_reaction: None },
            user: "5a8466038f866773f59fa6c8".to_owned(),
        }
    );
}

#[test]
fn parse_link_and_updates() {
    let mut obj = StructureLink {
        id: "57fdb3ea3dad49a17265ecea".to_string(),
        room: RoomName::new("E17N55").unwrap(),
        x: 9,
        y: 6,
        hits: 1000,
        hits_max: 1000,
        user: "57874d42d0ae911e3bd15bbc".to_string(),
        disabled: false,
        store: Store::from_entries(vec![(ResourceType::Energy, Some(100))]),
        capacity_resource: Store::from_entries(vec![(ResourceType::Energy, Some(800))]),
        cooldown: 3,
        action_log: StructureLinkActions {
            transfer_energy: None
        },
        notify_when_attacked: true
    };

    assert_eq!(
        obj,
        StructureLink {
            room: RoomName::new("E17N55").unwrap(),
            x: 9,
            y: 6,
            id: "57fdb3ea3dad49a17265ecea".to_owned(),
            store: store_of(&[(ResourceType::Energy, 100)]),
            capacity_resource: store_of(&[(ResourceType::Energy, 800)]),
            hits: 1000,
            hits_max: 1000,
            notify_when_attacked: true,
            disabled: false,
            cooldown: 3,
            action_log: StructureLinkActions {
                transfer_energy: None,
            },
            user: "57874d42d0ae911e3bd15bbc".to_owned(),
        }
    );

    obj.update(StructureLinkUpdate {
            cooldown: Some(2),
            ..Default::default()
    });

    obj.update(StructureLinkUpdate {
            cooldown: Some(1),
            ..Default::default()
    });

    obj.update(StructureLinkUpdate {
            cooldown: Some(0),
            ..Default::default()
    });

    assert_eq!(obj.cooldown, 0);

    obj.update(StructureLinkUpdate {
            store: Some(StoreUpdate::from_entries(vec![(ResourceType::Energy, Some(0))])),
            cooldown: Some(11),
            action_log: Some(StructureLinkActionsUpdate {
                    transfer_energy: Some(Some(ActionLogTargetUpdate {
                                x: Some(9),
                                y: Some(18),
                                ..Default::default()
                    })),
                    ..Default::default()
            }),
            ..Default::default()
    });

    assert_eq!(
        obj.action_log,
        StructureLinkActions {
            transfer_energy: Some(ActionLogTarget { x: 9, y: 18 }),
        }
    );

    obj.update(StructureLinkUpdate {
            store: Some(StoreUpdate::from_entries(vec![(ResourceType::Energy, Some(50))])),
            cooldown: Some(10),
            action_log: Some(StructureLinkActionsUpdate {
                    transfer_energy: Some(None),
                    ..Default::default()
            }),
            ..Default::default()
    });

    assert_eq!(
        obj,
        StructureLink {
            room: RoomName::new("E17N55").unwrap(),
            x: 9,
            y: 6,
            id: "57fdb3ea3dad49a17265ecea".to_owned(),
            store: store_of(&[(ResourceType::Energy, 50)]),
            capacity_resource: store_of(&[(ResourceType::Energy, 800)]),
            hits: 1000,
            hits_max: 1000,
            notify_when_attacked: true,
            disabled: false,
            cooldown: 10,
            action_log: StructureLinkActions {
                transfer_energy: None,
            },
            user: "57874d42d0ae911e3bd15bbc".to_owned(),
        }
    );
}

#[test]
fn mineral_parse_mineral() {
    let obj = Mineral {
        id: "57efa010195b160f02c752d6".to_string(),
        room: RoomName::new("E4S61").unwrap(),
        x: 14,
        y: 21,
        density: 3,
        mineral_amount_bits: (65590.0f64).to_bits(),
        mineral_type: ResourceType::Hydrogen,
        next_regeneration_time: None
    };

    assert_eq!(
        obj,
        Mineral {
            id: "57efa010195b160f02c752d6".to_owned(),
            room: RoomName::new("E4S61").unwrap(),
            x: 14,
            y: 21,
            density: 3,
            mineral_amount_bits: (65590.0f64).to_bits(),
            mineral_type: ResourceType::Hydrogen,
            next_regeneration_time: None,
        }
    );
}

#[test]
fn parse_nuker() {
    let obj = StructureNuker {
        id: "5df45e27d1ba60a873688d18".to_string(),
        room: RoomName::new("E17S38").unwrap(),
        x: 25,
        y: 19,
        hits: 1000,
        hits_max: 1000,
        user: "589f5265d25357e8253e3ee8".to_string(),
        disabled: false,
        store: Store::from_entries(vec![(ResourceType::Energy, Some(300000)), (ResourceType::Ghodium, Some(5000))]),
        store_capacity_resource: Store::from_entries(vec![(ResourceType::Energy, Some(300000)), (ResourceType::Ghodium, Some(5000))]),
        cooldown_time: 30260100,
        notify_when_attacked: false
    };

    assert_eq!(
        obj,
        StructureNuker {
            room: RoomName::new("E17S38").unwrap(),
            x: 25,
            y: 19,
            id: "5df45e27d1ba60a873688d18".to_owned(),
            hits: 1000,
            hits_max: 1000,
            store: store_of(&[(ResourceType::Energy, 300000), (ResourceType::Ghodium, 5000)]),
            store_capacity_resource: store_of(&[(ResourceType::Energy, 300000), (ResourceType::Ghodium, 5000)]),
            cooldown_time: 30260100,
            notify_when_attacked: false,
            disabled: false,
            user: "589f5265d25357e8253e3ee8".to_owned(),
        }
    );
}

#[test]
fn parse_observer_and_update() {
    let mut obj = StructureObserver {
        id: "582587dd871f73007b177b0f".to_string(),
        room: RoomName::new("E9N23").unwrap(),
        x: 20,
        y: 18,
        hits: 500,
        hits_max: 500,
        user: "561e4d4645f3f7244a7622e8".to_string(),
        disabled: false,
        observed: Some(RoomName::new("E5N20").unwrap()),
        notify_when_attacked: true
    };

    assert_eq!(obj, StructureObserver {
            room: RoomName::new("E9N23").unwrap(),
            x: 20,
            y: 18,
            id: "582587dd871f73007b177b0f".to_owned(),
            hits: 500,
            hits_max: 500,
            notify_when_attacked: true,
            disabled: false,
            observed: Some(RoomName::new("E5N20").unwrap()),
            user: "561e4d4645f3f7244a7622e8".to_owned(),
    });

    obj.update(StructureObserverUpdate {
            observed: Some(Some(RoomName::new("E4N20").unwrap())),
            ..Default::default()
    });

    assert_eq!(obj, StructureObserver {
            room: RoomName::new("E9N23").unwrap(),
            x: 20,
            y: 18,
            id: "582587dd871f73007b177b0f".to_owned(),
            hits: 500,
            hits_max: 500,
            notify_when_attacked: true,
            disabled: false,
            observed: Some(RoomName::new("E4N20").unwrap()),
            user: "561e4d4645f3f7244a7622e8".to_owned(),
    });

    obj.update(StructureObserverUpdate {
            observed: Some(None),
            ..Default::default()
    });

    assert_eq!(obj, StructureObserver {
            room: RoomName::new("E9N23").unwrap(),
            x: 20,
            y: 18,
            id: "582587dd871f73007b177b0f".to_owned(),
            hits: 500,
            hits_max: 500,
            notify_when_attacked: true,
            disabled: false,
            observed: None,
            user: "561e4d4645f3f7244a7622e8".to_owned(),
    });
}

#[test]
fn parse_portal_decaying() {
    let obj = StructurePortal {
        id: "59570dde2d46c88436d2ab7e".to_string(),
        room: RoomName::new("W5N35").unwrap(),
        x: 13,
        y: 30,
        unstable_date: None,
        decay_time: Some(20197693),
        destination: PortalDestination {
            room: RoomName::new("E95S15").unwrap(),
            x: 31,
            y: 26
        }
    };

    assert_eq!(obj, StructurePortal {
            room: RoomName::new("W5N35").unwrap(),
            x: 13,
            y: 30,
            id: "59570dde2d46c88436d2ab7e".to_owned(),
            unstable_date: None,
            decay_time: Some(20197693),
            destination: PortalDestination {
                room: RoomName::new("E95S15").unwrap(),
                x: 31,
                y: 26,
            }
    });
}

#[test]
fn parse_portal_stable_and_update() {
    let mut obj = StructurePortal {
        id: "595fc9cd28a6884ac973e390".to_string(),
        room: RoomName::new("W5N85").unwrap(),
        x: 22,
        y: 37,
        unstable_date: Some(Timespec { sec: 1500313804391, nsec: 0 }),
        decay_time: None,
        destination: PortalDestination {
            room: RoomName::new("W25N35").unwrap(),
            x: 16,
            y: 41
        }
    };

    assert_eq!(obj, StructurePortal {
            room: RoomName::new("W5N85").unwrap(),
            x: 22,
            y: 37,
            id: "595fc9cd28a6884ac973e390".to_owned(),
            unstable_date: Some(Timespec { sec: 1500313804391, nsec: 0 }),
            decay_time: None,
            destination: PortalDestination {
                room: RoomName::new("W25N35").unwrap(),
                x: 16,
                y: 41,
            }
    });

    obj.update(StructurePortalUpdate {
            unstable_date: Some(None),
            decay_time: Some(Some(20197693)),
            ..Default::default()
    });

    assert_eq!(obj, StructurePortal {
            room: RoomName::new("W5N85").unwrap(),
            x: 22,
            y: 37,
            id: "595fc9cd28a6884ac973e390".to_owned(),
            unstable_date: None,
            decay_time: Some(20197693),
            destination: PortalDestination {
                room: RoomName::new("W25N35").unwrap(),
                x: 16,
                y: 41,
            }
    });
}

#[test]
fn parse_power_bank() {
    let obj = StructurePowerBank {
        id: "59695d5c09c7343d8a4192fd".to_string(),
        room: RoomName::new("W66N20").unwrap(),
        x: 24,
        y: 40,
        hits: 2000000,
        hits_max: 2000000,
        decay_time: 20238724,
        power: 3186
    };

    assert_eq!(
        obj,
        StructurePowerBank {
            room: RoomName::new("W66N20").unwrap(),
            x: 24,
            y: 40,
            id: "59695d5c09c7343d8a4192fd".to_owned(),
            decay_time: 20238724,
            hits: 2000000,
            hits_max: 2000000,
            power: 3186,
        }
    );
}

#[test]
fn parse_power_spawn() {
    let obj = StructurePowerSpawn {
        id: "5c4f9dfdad370f697474ed5b".to_string(),
        room: RoomName::new("W15S43").unwrap(),
        x: 33,
        y: 24,
        hits: 5000,
        hits_max: 5000,
        user: "589f5265d25357e8253e3ee8".to_string(),
        disabled: false,
        store: Store::from_entries(vec![(ResourceType::Energy, Some(369)), (ResourceType::Power, Some(27))]),
        capacity_resource: Store::from_entries(vec![(ResourceType::Energy, Some(5000)), (ResourceType::Power, Some(100))]),
        notify_when_attacked: true
    };

    assert_eq!(
        obj,
        StructurePowerSpawn {
            id: "5c4f9dfdad370f697474ed5b".to_owned(),
            room: RoomName::new("W15S43").unwrap(),
            x: 33,
            y: 24,
            store: store_of(&[(ResourceType::Energy, 369), (ResourceType::Power, 27)]),
            capacity_resource: store_of(&[(ResourceType::Energy, 5000), (ResourceType::Power, 100)]),
            hits: 5000,
            hits_max: 5000,
            notify_when_attacked: true,
            disabled: false,
            user: "589f5265d25357e8253e3ee8".to_owned(),
        }
    );
}

#[test]
fn parse_rampart() {
    let obj = StructureRampart {
        id: "58e5ae786dace5c319d5b7ee".to_string(),
        room: RoomName::new("W73N43").unwrap(),
        x: 29,
        y: 35,
        hits: 7181701,
        hits_max: 10000000,
        user: "576b572e366187105908ad57".to_string(),
        next_decay_time: 20179250,
        notify_when_attacked: true,
        public: false
    };

    assert_eq!(obj, StructureRampart {
            room: RoomName::new("W73N43").unwrap(),
            x: 29,
            y: 35,
            id: "58e5ae786dace5c319d5b7ee".to_owned(),
            hits: 7181701,
            hits_max: 10000000,
            next_decay_time: 20179250,
            notify_when_attacked: true,
            user: "576b572e366187105908ad57".to_owned(),
            public: false,
    });
}

#[test]
fn parse_friendly_rampart() {
    let obj = StructureRampart {
        id: "58a2895a578de3836ea89fbb".to_string(),
        room: RoomName::new("E4S61").unwrap(),
        x: 20,
        y: 14,
        hits: 97490601,
        hits_max: 300000000,
        user: "57874d42d0ae911e3bd15bbc".to_string(),
        next_decay_time: 19894001,
        notify_when_attacked: true,
        public: true
    };

    assert_eq!(obj, StructureRampart {
            room: RoomName::new("E4S61").unwrap(),
            x: 20,
            y: 14,
            id: "58a2895a578de3836ea89fbb".to_owned(),
            hits: 97490601,
            hits_max: 300000000,
            public: true,
            next_decay_time: 19894001,
            notify_when_attacked: true,
            user: "57874d42d0ae911e3bd15bbc".to_owned(),
    });
}

#[test]
fn parse_road_and_update() {
    let mut obj = StructureRoad {
        id: "58a1ec36947c6c2d324a2d39".to_string(),
        room: RoomName::new("E4S61").unwrap(),
        x: 14,
        y: 20,
        hits: 2600,
        hits_max: 5000,
        next_decay_time: 19894066,
        notify_when_attacked: true
    };

    assert_eq!(obj, StructureRoad {
            room: RoomName::new("E4S61").unwrap(),
            x: 14,
            y: 20,
            id: "58a1ec36947c6c2d324a2d39".to_owned(),
            hits: 2600,
            hits_max: 5000,
            next_decay_time: 19894066,
            notify_when_attacked: true,
    });

    obj.update(StructureRoadUpdate {
            hits: Some(2000),
            next_decay_time: Some(20000000),
            ..Default::default()
    });

    assert_eq!(obj, StructureRoad {
            room: RoomName::new("E4S61").unwrap(),
            x: 14,
            y: 20,
            id: "58a1ec36947c6c2d324a2d39".to_owned(),
            hits: 2000,
            hits_max: 5000,
            next_decay_time: 20000000,
            notify_when_attacked: true,
    });
}

#[test]
fn source_parse_source_and_update() {
    let mut obj = Source {
        id: "57ef9dba86f108ae6e60e2fc".to_string(),
        room: RoomName::new("E4S61").unwrap(),
        x: 26,
        y: 9,
        energy: 260,
        energy_capacity: 3000,
        invader_harvested: 29240,
        next_regeneration_time: Some(19894026),
        ticks_to_regeneration: 300
    };

    assert_eq!(
        obj,
        Source {
            id: "57ef9dba86f108ae6e60e2fc".to_owned(),
            room: RoomName::new("E4S61").unwrap(),
            x: 26,
            y: 9,
            energy: 260,
            energy_capacity: 3000,
            invader_harvested: 29240,
            next_regeneration_time: Some(19894026),
            ticks_to_regeneration: 300,
        }
    );

    obj.update(SourceUpdate {
            x: Some(40),
            y: Some(50),
            energy: Some(0),
            ..Default::default()
    });

    assert_eq!(
        obj,
        Source {
            id: "57ef9dba86f108ae6e60e2fc".to_owned(),
            room: RoomName::new("E4S61").unwrap(),
            x: 40,
            y: 50,
            energy: 0,
            energy_capacity: 3000,
            invader_harvested: 29240,
            next_regeneration_time: Some(19894026),
            ticks_to_regeneration: 300,
        }
    );
}

#[test]
fn handle_no_invader_harvested() {
    let obj = Source {
        id: "5bbcad499099fc012e6370ab".to_string(),
        room: RoomName::new("E6S26").unwrap(),
        x: 40,
        y: 34,
        energy: 4000,
        energy_capacity: 4000,
        invader_harvested: 0,
        next_regeneration_time: None,
        ticks_to_regeneration: 300
    };

    assert_eq!(
        obj,
        Source {
            id: "5bbcad499099fc012e6370ab".to_owned(),
            room: RoomName::new("E6S26").unwrap(),
            x: 40,
            y: 34,
            energy: 4000,
            energy_capacity: 4000,
            invader_harvested: 0,
            next_regeneration_time: None,
            ticks_to_regeneration: 300,
        }
    );
}

#[test]
fn parse_empty_spawn() {
    let obj = StructureSpawn {
        id: "5f0236153187fd5e3dfa814a".to_string(),
        room: RoomName::new("W41N48").unwrap(),
        x: 26,
        y: 28,
        hits: 5000,
        hits_max: 5000,
        user: "57874d42d0ae911e3bd15bbc".to_string(),
        disabled: false,
        store: Store::from_entries(vec![(ResourceType::Energy, Some(300))]),
        capacity_resource: Store::from_entries(vec![(ResourceType::Energy, Some(300))]),
        notify_when_attacked: true,
        name: "Spawn1".to_string(),
        spawning: None
    };

    assert_eq!(
        obj,
        StructureSpawn {
            id: "5f0236153187fd5e3dfa814a".to_owned(),
            room: RoomName::new("W41N48").unwrap(),
            x: 26,
            y: 28,
            store: store_of(&[(ResourceType::Energy, 300)]),
            capacity_resource: store_of(&[(ResourceType::Energy, 300)]),
            hits: 5000,
            hits_max: 5000,
            name: "Spawn1".to_owned(),
            notify_when_attacked: true,
            disabled: false,
            spawning: None,
            user: "57874d42d0ae911e3bd15bbc".to_owned(),
        }
    );
}

#[test]
fn parse_spawn_and_update() {
    let mut obj = StructureSpawn {
        id: "5d25a0b8e52ab5700a3747ab".to_string(),
        room: RoomName::new("W44S12").unwrap(),
        x: 28,
        y: 26,
        hits: 5000,
        hits_max: 5000,
        user: "5a8466038f866773f59fa6c8".to_string(),
        disabled: false,
        store: Store::from_entries(vec![(ResourceType::Energy, Some(300))]),
        capacity_resource: Store::from_entries(vec![(ResourceType::Energy, Some(300))]),
        notify_when_attacked: true,
        name: "Spawn1".to_string(),
        spawning: Some(SpawningCreep {
                name: "902640".to_string(),
                total_time: 144,
                spawn_time: 24577555
        })
    };

    assert_eq!(
        obj,
        StructureSpawn {
            id: "5d25a0b8e52ab5700a3747ab".to_owned(),
            room: RoomName::new("W44S12").unwrap(),
            x: 28,
            y: 26,
            store: store_of(&[(ResourceType::Energy, 300)]),
            capacity_resource: store_of(&[(ResourceType::Energy, 300)]),
            hits: 5000,
            hits_max: 5000,
            name: "Spawn1".to_owned(),
            notify_when_attacked: true,
            disabled: false,
            spawning: Some(SpawningCreep {
                    name: "902640".to_owned(),
                    total_time: 144,
                    spawn_time: 24577555,
            }),
            user: "5a8466038f866773f59fa6c8".to_owned(),
        }
    );

    obj.update(StructureSpawnUpdate {
            spawning: Some(None),
            ..Default::default()
    });

    assert_eq!(obj.spawning, None);

    obj.update(StructureSpawnUpdate {
            store: Some(StoreUpdate::from_entries(vec![(ResourceType::Energy, Some(0))])),
            spawning: Some(Some(SpawningCreepUpdate {
                        name: Some("8449040".to_string()),
                        total_time: Some(144),
                        spawn_time: Some(24577699),
                        ..Default::default()
            })),
            ..Default::default()
    });

    assert_eq!(
        obj.spawning,
        Some(SpawningCreep {
                name: "8449040".to_owned(),
                total_time: 144,
                spawn_time: 24577699,
        })
    );

    assert_eq!(obj.store, Store::new());

    obj.update(StructureSpawnUpdate {
            store: Some(StoreUpdate::from_entries(vec![(ResourceType::Energy, Some(300))])),
            ..Default::default()
    });

    assert_eq!(obj.store, store_of(&[(ResourceType::Energy, 300)]));
}

#[test]
fn parse_storage() {
    let obj = StructureStorage {
        id: "599ca7f2e48c09254b443791".to_string(),
        room: RoomName::new("W39N49").unwrap(),
        x: 6,
        y: 13,
        hits: 10000,
        hits_max: 10000,
        user: "5788389e3fd9069e6b546e2d".to_string(),
        disabled: false,
        capacity: 1000000,
        notify_when_attacked: true,
        store: Store::from_entries(vec![(ResourceType::Energy, Some(913026))])
    };

    match obj {
        StructureStorage {
            capacity: 1000000,
            hits: 10000,
            hits_max: 10000,
            notify_when_attacked: true,
            x: 6,
            y: 13,
            ref store,
            ..
        } if *store
        == store_of(&[(ResourceType::Energy, 913026)]) =>
        {
            ()
        }
        other => panic!(
            "expected pre-set StructureStorage to match, found {:#?}",
            other
        ),
    }
}

#[test]
fn parse_terminal() {
    let obj = StructureTerminal {
        id: "59a5cc4f4733bb4c785ec4e7".to_string(),
        room: RoomName::new("W39N49").unwrap(),
        x: 4,
        y: 9,
        hits: 3000,
        hits_max: 3000,
        user: "5788389e3fd9069e6b546e2d".to_string(),
        disabled: false,
        capacity: 300000,
        cooldown_time: 38432852,
        notify_when_attacked: true,
        store: Store::from_entries(vec![(ResourceType::Catalyst, Some(50189)), (ResourceType::CatalyzedGhodiumAcid, Some(0)), (ResourceType::Energy, Some(25000))])
    };

    // A store read from the server leaves out the amount of 0 it was sent.
    match obj {
        StructureTerminal {
            capacity: 300000,
            hits: 3000,
            hits_max: 3000,
            notify_when_attacked: true,
            cooldown_time: 38432852,
            disabled: false,
            x: 4,
            y: 9,
            ref user,
            ref id,
            ref store,
            ..
        } if user == "5788389e3fd9069e6b546e2d"
        && id == "59a5cc4f4733bb4c785ec4e7"
        && *store == store_of(&[(ResourceType::Energy, 25000), (ResourceType::Catalyst, 50189)]) =>
        {
            ()
        }

        other => panic!(
            "expected pre-set StructureTerminal to match, found {:#?}",
            other
        ),
    }
}

#[test]
fn parse_with_null_cooldown() {
    // note: not actual server data, reconstructed from two instances
    //  - it's hard to find a null terminal cooldown.

    let obj = StructureTerminal {
        id: "59a5cc4f4733bb4c785ec4e7".to_string(),
        room: RoomName::new("W39N49").unwrap(),
        x: 4,
        y: 9,
        hits: 3000,
        hits_max: 3000,
        user: "5788389e3fd9069e6b546e2d".to_string(),
        disabled: false,
        capacity: 300000,
        cooldown_time: 0,
        notify_when_attacked: true,
        store: Store::from_entries(vec![])
    };

    assert_eq!(obj.cooldown_time, 0);
}

#[test]
fn parse_simple_tombstone() {
    let obj = Tombstone {
        id: "5f025c6070eb1e39990f1622".to_string(),
        room: RoomName::new("W41N48").unwrap(),
        x: 12,
        y: 24,
        user: "57874d42d0ae911e3bd15bbc".to_string(),
        creep_body: vec![CreepPartType::Move, CreepPartType::Move, CreepPartType::Carry, CreepPartType::Work],
        creep_id: "5f025b3706ec7d5f6e3cd7a3".to_string(),
        creep_name: "38445073-0".to_string(),
        creep_saying: None,
        creep_ticks_to_live: 1457,
        death_time: 38445127,
        decay_time: 38445147,
        store: Store::from_entries(vec![(ResourceType::Energy, Some(48))])
    };

    assert_eq!(obj.creep_id, "5f025b3706ec7d5f6e3cd7a3");
    assert_eq!(obj.creep_name, "38445073-0");
}

#[test]
fn parse_tombstone_with_energy() {
    let obj = Tombstone {
        id: "5f023c25557c806c615bf76d".to_string(),
        room: RoomName::new("W31N48").unwrap(),
        x: 20,
        y: 33,
        user: "57cd3be0559868c84d297d87".to_string(),
        creep_body: vec![CreepPartType::Carry, CreepPartType::Carry, CreepPartType::Carry, CreepPartType::Carry, CreepPartType::Carry, CreepPartType::Carry, CreepPartType::Carry, CreepPartType::Carry, CreepPartType::Carry, CreepPartType::Carry, CreepPartType::Carry, CreepPartType::Carry, CreepPartType::Carry, CreepPartType::Carry, CreepPartType::Carry, CreepPartType::Carry, CreepPartType::Carry, CreepPartType::Carry, CreepPartType::Carry, CreepPartType::Carry, CreepPartType::Move, CreepPartType::Move, CreepPartType::Move, CreepPartType::Move, CreepPartType::Move, CreepPartType::Move, CreepPartType::Move, CreepPartType::Move, CreepPartType::Move, CreepPartType::Move],
        creep_id: "5f021a8c0a816c111ff81006".to_string(),
        creep_name: "W31N48_transport_20200".to_string(),
        creep_saying: None,
        creep_ticks_to_live: 1,
        death_time: 38443608,
        decay_time: 38443758,
        store: Store::from_entries(vec![(ResourceType::Energy, Some(1000))])
    };

    assert_eq!(obj.creep_id, "5f021a8c0a816c111ff81006");
    assert_eq!(obj.creep_name, "W31N48_transport_20200");
    assert_eq!(obj.store, store_of(&[(ResourceType::Energy, 1000)]));
}

#[test]
fn parse_tower_and_update() {
    let mut obj = StructureTower {
        id: "5d334cefdbfe1b628e862a0d".to_string(),
        room: RoomName::new("W44S12").unwrap(),
        x: 26,
        y: 25,
        hits: 3000,
        hits_max: 3000,
        user: "5a8466038f866773f59fa6c8".to_string(),
        disabled: false,
        store: Store::from_entries(vec![(ResourceType::Energy, Some(570))]),
        store_capacity_resource: Store::from_entries(vec![(ResourceType::Energy, Some(1000))]),
        notify_when_attacked: true,
        action_log: StructureTowerActions {
            attack: Some(ActionLogTarget {
                    x: 46,
                    y: 7
            }),
            heal: None,
            repair: None
        }
    };

    assert_eq!(
        obj,
        StructureTower {
            room: RoomName::new("W44S12").unwrap(),
            x: 26,
            y: 25,
            id: "5d334cefdbfe1b628e862a0d".to_owned(),
            store: store_of(&[(ResourceType::Energy, 570)]),
            store_capacity_resource: store_of(&[(ResourceType::Energy, 1000)]),
            hits: 3000,
            hits_max: 3000,
            notify_when_attacked: true,
            disabled: false,
            action_log: StructureTowerActions {
                attack: Some(ActionLogTarget { x: 46, y: 7 }),
                heal: None,
                repair: None,
            },
            user: "5a8466038f866773f59fa6c8".to_owned(),
        }
    );

    obj.update(StructureTowerUpdate {
            store: Some(StoreUpdate::from_entries(vec![(ResourceType::Energy, Some(560))])),
            action_log: Some(StructureTowerActionsUpdate {
                    attack: Some(Some(ActionLogTargetUpdate {
                                x: Some(45),
                                y: Some(6),
                                ..Default::default()
                    })),
                    ..Default::default()
            }),
            ..Default::default()
    });

    assert_eq!(
        obj.action_log,
        StructureTowerActions {
            attack: Some(ActionLogTarget { x: 45, y: 6 }),
            heal: None,
            repair: None,
        }
    );

    assert_eq!(obj.store, store_of(&[(ResourceType::Energy, 560)]));

    obj.update(StructureTowerUpdate {
            store: Some(StoreUpdate::from_entries(vec![(ResourceType::Energy, Some(550))])),
            ..Default::default()
    });

    assert_eq!(
        obj.action_log,
        StructureTowerActions {
            attack: Some(ActionLogTarget { x: 45, y: 6 }),
            heal: None,
            repair: None,
        }
    );

    assert_eq!(obj.store, store_of(&[(ResourceType::Energy, 550)]));

    obj.update(StructureTowerUpdate {
            action_log: Some(StructureTowerActionsUpdate {
                    attack: Some(None),
                    ..Default::default()
            }),
            ..Default::default()
    });

    assert_eq!(
        obj.action_log,
        StructureTowerActions {
            attack: None,
            heal: None,
            repair: None,
        },
    );
}

#[test]
fn parse_wall() {
    let obj = StructureWall {
        id: "584a5d89cbe27a302e4ba889".to_string(),
        room: RoomName::new("W73N43").unwrap(),
        x: 47,
        y: 24,
        hits: 7222461,
        hits_max: 300000000,
        notify_when_attacked: true,
        decay_time: None
    };

    assert_eq!(
        obj,
        StructureWall {
            room: RoomName::new("W73N43").unwrap(),
            x: 47,
            y: 24,
            id: "584a5d89cbe27a302e4ba889".to_owned(),
            hits: 7222461,
            hits_max: 300000000,
            notify_when_attacked: true,
            decay_time: None,
        }
    );
}

#[test]
fn parse_noob_wall() {
    let obj = StructureWall {
        id: "5cdf140a8e5fb05519843bc6".to_string(),
        room: RoomName::new("W5S35").unwrap(),
        x: 29,
        y: 0,
        hits: 0,
        hits_max: 0,
        notify_when_attacked: false,
        decay_time: Some(WallDecayTime {
                timestamp: Timespec { sec: 1559851447000, nsec: 0 }
        })
    };

    assert_eq!(
        obj,
        StructureWall {
            room: RoomName::new("W5S35").unwrap(),
            x: 29,
            y: 0,
            id: "5cdf140a8e5fb05519843bc6".to_owned(),
            hits: 0,
            hits_max: 0,
            notify_when_attacked: false,
            decay_time: Some(WallDecayTime {
                    timestamp: Timespec { sec: 1559851447000i64, nsec: 0 }
            }),
        }
    );
}

#[test]
fn power_creep_parse_creep() {
    // A power creep as the server sent it. It has no `body` and no `fatigue`, which a
    // `PowerCreep` holds, so it describes no whole power creep; as an update it sets the fields
    // it names.
    let update = PowerCreepUpdate {
        id: Some("5cb1a1cd5341a50b971acd01".to_string()),
        room: Some(RoomName::new("E8N32").unwrap()),
        x: Some(36),
        y: Some(24),
        hits: Some(26000),
        hits_max: Some(26000),
        user: Some("58519b0bee6ae29347627228".to_string()),
        capacity: Some(2600),
        name: Some("oprEco_457".to_string()),
        age_time: Some(Some(18241147)),
        action_log: Some(PowerCreepActionsUpdate {
                attack: Some(None),
                attacked: Some(None),
                healed: Some(None),
                say: Some(None),
                ..Default::default()
        }),
        ..Default::default()
    };
    assert!(PowerCreep::create_from_update(update.clone()).is_none());

    let mut obj = PowerCreep {
        id: "5cb1a1cd5341a50b971acd01".to_string(),
        room: RoomName::new("E8N32").unwrap(),
        x: 0,
        y: 0,
        hits: 0,
        hits_max: 0,
        user: String::new(),
        spawning: false,
        capacity: 0,
        notify_when_attacked: true,
        name: String::new(),
        fatigue: 0,
        age_time: None,
        body: vec![],
        action_log: PowerCreepActions {
            harvest: None,
            build: None,
            repair: None,
            attack: Some(ActionLogTarget { x: 1, y: 1 }),
            heal: None,
            attacked: None,
            healed: None,
            say: None,
        },
    };
    obj.update(update);
    assert_eq!((obj.x, obj.y), (36, 24));
    assert_eq!((obj.hits, obj.hits_max, obj.capacity), (26000, 26000, 2600));
    assert_eq!(obj.user, "58519b0bee6ae29347627228");
    assert_eq!(obj.name, "oprEco_457");
    assert_eq!(obj.age_time, Some(18241147));
    assert_eq!(obj.action_log.attack, None);
    assert!(obj.notify_when_attacked);
}
