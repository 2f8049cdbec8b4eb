//! `Creep` data description.
use vstd::prelude::*;

use crate::room_name::RoomName;
use crate::updatable::{Updatable, apply_field, applied_field, created_field, VecUpdate, VecUpdateView};
use super::creep::{CreepActions, CreepMessage, CreepMessageUpdate, CreepMessageUpdateView, CreepMessageView, CreepPart, CreepPartUpdate, CreepPartUpdateView, CreepPartView};
use super::shared::{ActionLogTarget, ActionLogTargetUpdate, ActionLogTargetUpdateView, ActionLogTargetView};

verus! {

/// A struct describing a creep's actions.
#[derive(Clone, Debug, PartialEq)]
pub struct PowerCreepActions {
    /// The location this creep harvested last tick.
    pub harvest: Option<ActionLogTarget>,
    /// The location this creep built to last tick.
    pub build: Option<ActionLogTarget>,
    /// The location this creep repaired last tick.
    pub repair: Option<ActionLogTarget>,
    /// The location this creep attacked last tick.
    pub attack: Option<ActionLogTarget>,
    /// The location this creep healed last tick.
    pub heal: Option<ActionLogTarget>,
    /// The location this creep was attacked from last tick.
    pub attacked: Option<ActionLogTarget>,
    /// The location this creep was healed from last tick.
    pub healed: Option<ActionLogTarget>,
    /// The message this creep said last tick.
    pub say: Option<CreepMessage>,
}

/// The abstract value of a `PowerCreepActions`.
pub struct PowerCreepActionsView {
    pub harvest: Option<ActionLogTargetView>,
    pub build: Option<ActionLogTargetView>,
    pub repair: Option<ActionLogTargetView>,
    pub attack: Option<ActionLogTargetView>,
    pub heal: Option<ActionLogTargetView>,
    pub attacked: Option<ActionLogTargetView>,
    pub healed: Option<ActionLogTargetView>,
    pub say: Option<CreepMessageView>,
}

/// The update structure for a `CreepActions`.
///
/// Each field that is present replaces or updates the field of the same name.
#[derive(Clone, Debug, Default)]
pub struct PowerCreepActionsUpdate {
    pub harvest: Option<Option<ActionLogTargetUpdate>>,
    pub build: Option<Option<ActionLogTargetUpdate>>,
    pub repair: Option<Option<ActionLogTargetUpdate>>,
    pub attack: Option<Option<ActionLogTargetUpdate>>,
    pub heal: Option<Option<ActionLogTargetUpdate>>,
    pub attacked: Option<Option<ActionLogTargetUpdate>>,
    pub healed: Option<Option<ActionLogTargetUpdate>>,
    pub say: Option<Option<CreepMessageUpdate>>,
}

/// The abstract value of a `PowerCreepActionsUpdate`.
pub struct PowerCreepActionsUpdateView {
    pub harvest: Option<Option<ActionLogTargetUpdateView>>,
    pub build: Option<Option<ActionLogTargetUpdateView>>,
    pub repair: Option<Option<ActionLogTargetUpdateView>>,
    pub attack: Option<Option<ActionLogTargetUpdateView>>,
    pub heal: Option<Option<ActionLogTargetUpdateView>>,
    pub attacked: Option<Option<ActionLogTargetUpdateView>>,
    pub healed: Option<Option<ActionLogTargetUpdateView>>,
    pub say: Option<Option<CreepMessageUpdateView>>,
}

impl DeepView for PowerCreepActions {
    type V = PowerCreepActionsView;

    open spec fn deep_view(&self) -> PowerCreepActionsView {
        PowerCreepActionsView {
            harvest: self.harvest.deep_view(),
            build: self.build.deep_view(),
            repair: self.repair.deep_view(),
            attack: self.attack.deep_view(),
            heal: self.heal.deep_view(),
            attacked: self.attacked.deep_view(),
            healed: self.healed.deep_view(),
            say: self.say.deep_view(),
        }
    }
}

impl DeepView for PowerCreepActionsUpdate {
    type V = PowerCreepActionsUpdateView;

    open spec fn deep_view(&self) -> PowerCreepActionsUpdateView {
        PowerCreepActionsUpdateView {
            harvest: self.harvest.deep_view(),
            build: self.build.deep_view(),
            repair: self.repair.deep_view(),
            attack: self.attack.deep_view(),
            heal: self.heal.deep_view(),
            attacked: self.attacked.deep_view(),
            healed: self.healed.deep_view(),
            say: self.say.deep_view(),
        }
    }
}

impl Updatable for PowerCreepActions {
    type Update = PowerCreepActionsUpdate;

    open spec fn applied(v: PowerCreepActionsView, u: PowerCreepActionsUpdateView) -> PowerCreepActionsView {
        PowerCreepActionsView {
            harvest: applied_field::<Option<ActionLogTarget>>(v.harvest, u.harvest),
            build: applied_field::<Option<ActionLogTarget>>(v.build, u.build),
            repair: applied_field::<Option<ActionLogTarget>>(v.repair, u.repair),
            attack: applied_field::<Option<ActionLogTarget>>(v.attack, u.attack),
            heal: applied_field::<Option<ActionLogTarget>>(v.heal, u.heal),
            attacked: applied_field::<Option<ActionLogTarget>>(v.attacked, u.attacked),
            healed: applied_field::<Option<ActionLogTarget>>(v.healed, u.healed),
            say: applied_field::<Option<CreepMessage>>(v.say, u.say),
        }
    }

    open spec fn created(u: PowerCreepActionsUpdateView) -> Option<PowerCreepActionsView> {
        if created_field::<Option<ActionLogTarget>>(u.harvest) is Some
            && created_field::<Option<ActionLogTarget>>(u.build) is Some
            && created_field::<Option<ActionLogTarget>>(u.repair) is Some
            && created_field::<Option<ActionLogTarget>>(u.attack) is Some
            && created_field::<Option<ActionLogTarget>>(u.heal) is Some
            && created_field::<Option<ActionLogTarget>>(u.attacked) is Some
            && created_field::<Option<ActionLogTarget>>(u.healed) is Some
            && created_field::<Option<CreepMessage>>(u.say) is Some {
            Some(
                PowerCreepActionsView {
                    harvest: created_field::<Option<ActionLogTarget>>(u.harvest)->0,
                    build: created_field::<Option<ActionLogTarget>>(u.build)->0,
                    repair: created_field::<Option<ActionLogTarget>>(u.repair)->0,
                    attack: created_field::<Option<ActionLogTarget>>(u.attack)->0,
                    heal: created_field::<Option<ActionLogTarget>>(u.heal)->0,
                    attacked: created_field::<Option<ActionLogTarget>>(u.attacked)->0,
                    healed: created_field::<Option<ActionLogTarget>>(u.healed)->0,
                    say: created_field::<Option<CreepMessage>>(u.say)->0,
                },
            )
        } else {
            None
        }
    }

    fn apply_update(&mut self, update: PowerCreepActionsUpdate) {
        let PowerCreepActionsUpdate { harvest, build, repair, attack, heal, attacked, healed, say } = update;
        apply_field(&mut self.harvest, harvest);
        apply_field(&mut self.build, build);
        apply_field(&mut self.repair, repair);
        apply_field(&mut self.attack, attack);
        apply_field(&mut self.heal, heal);
        apply_field(&mut self.attacked, attacked);
        apply_field(&mut self.healed, healed);
        apply_field(&mut self.say, say);
    }

    fn create_from_update(update: PowerCreepActionsUpdate) -> (r: Option<PowerCreepActions>) {
        let PowerCreepActionsUpdate { harvest, build, repair, attack, heal, attacked, healed, say } = update;
        let harvest = match harvest {
            Some(u) => match <Option<ActionLogTarget> as Updatable>::create_from_update(u) {
                Some(v) => v,
                None => return None,
            },
            None => return None,
        };
        let build = match build {
            Some(u) => match <Option<ActionLogTarget> as Updatable>::create_from_update(u) {
                Some(v) => v,
                None => return None,
            },
            None => return None,
        };
        let repair = match repair {
            Some(u) => match <Option<ActionLogTarget> as Updatable>::create_from_update(u) {
                Some(v) => v,
                None => return None,
            },
            None => return None,
        };
        let attack = match attack {
            Some(u) => match <Option<ActionLogTarget> as Updatable>::create_from_update(u) {
                Some(v) => v,
                None => return None,
            },
            None => return None,
        };
        let heal = match heal {
            Some(u) => match <Option<ActionLogTarget> as Updatable>::create_from_update(u) {
                Some(v) => v,
                None => return None,
            },
            None => return None,
        };
        let attacked = match attacked {
            Some(u) => match <Option<ActionLogTarget> as Updatable>::create_from_update(u) {
                Some(v) => v,
                None => return None,
            },
            None => return None,
        };
        let healed = match healed {
            Some(u) => match <Option<ActionLogTarget> as Updatable>::create_from_update(u) {
                Some(v) => v,
                None => return None,
            },
            None => return None,
        };
        let say = match say {
            Some(u) => match <Option<CreepMessage> as Updatable>::create_from_update(u) {
                Some(v) => v,
                None => return None,
            },
            None => return None,
        };
        Some(PowerCreepActions { harvest, build, repair, attack, heal, attacked, healed, say })
    }
}

impl PowerCreepActions {
    /// Updates this structure with all values present in the given update.
    pub fn update(&mut self, update: PowerCreepActionsUpdate)
        ensures
            final(self).deep_view() == <PowerCreepActions as Updatable>::applied(
                old(self).deep_view(),
                update.deep_view(),
            ),
    {
        self.apply_update(update);
    }
}

/// A creep object.
#[derive(Clone, Debug, PartialEq)]
pub struct PowerCreep {
    /// Unique 'id' identifier for all game objects on a server.
    pub id: String,
    /// Room object is in.
    pub room: RoomName,
    /// X position within the room (0-50).
    pub x: u32,
    /// Y position within the room (0-50).
    pub y: u32,
    /// The current number of hit-points this structure has.
    pub hits: i32,
    /// The maximum number of hit-points this structure has.
    pub hits_max: i32,
    /// The user ID of the owner of this creep.
    pub user: String,
    /// Whether or not this creep is currently being constructed 'inside' a spawner. If this is the case,
    /// it cannot perform any actions.
    pub spawning: bool,
    /// The total amount of resources this creep can carry.
    pub capacity: i32,
    /// Whether or not an attack on this creep will send an email to the owner automatically..
    pub notify_when_attacked: bool,
    /// The name of this creep, unique per player.
    pub name: String,
    /// The current 'fatigue' of this creep. If higher than 0, this creep cannot execute a move action this tick.
    pub fatigue: i32,
    /// The game time at which this creep will die if not renewed further before then.
    ///
    /// None if the creep is still spawning.
    pub age_time: Option<u32>,
    /// A list of parts on this creep, and their current states.
    pub body: Vec<CreepPart>,
    /// A record of all actions this creep performed and some actions performed onto this creep last tick.
    pub action_log: PowerCreepActions,
}

/// The abstract value of a `PowerCreep`.
pub struct PowerCreepView {
    pub id: Seq<char>,
    pub room: RoomName,
    pub x: u32,
    pub y: u32,
    pub hits: i32,
    pub hits_max: i32,
    pub user: Seq<char>,
    pub spawning: bool,
    pub capacity: i32,
    pub notify_when_attacked: bool,
    pub name: Seq<char>,
    pub fatigue: i32,
    pub age_time: Option<u32>,
    pub body: Seq<CreepPartView>,
    pub action_log: PowerCreepActionsView,
}

/// The update structure for a `PowerCreep`.
///
/// Each field that is present replaces or updates the field of the same name.
#[derive(Clone, Debug, Default)]
pub struct PowerCreepUpdate {
    pub id: Option<String>,
    pub room: Option<RoomName>,
    pub x: Option<u32>,
    pub y: Option<u32>,
    pub hits: Option<i32>,
    pub hits_max: Option<i32>,
    pub user: Option<String>,
    pub spawning: Option<bool>,
    pub capacity: Option<i32>,
    pub notify_when_attacked: Option<bool>,
    pub name: Option<String>,
    pub fatigue: Option<i32>,
    pub age_time: Option<Option<u32>>,
    pub body: Option<VecUpdate<CreepPartUpdate>>,
    pub action_log: Option<PowerCreepActionsUpdate>,
}

/// The abstract value of a `PowerCreepUpdate`.
pub struct PowerCreepUpdateView {
    pub id: Option<Seq<char>>,
    pub room: Option<RoomName>,
    pub x: Option<u32>,
    pub y: Option<u32>,
    pub hits: Option<i32>,
    pub hits_max: Option<i32>,
    pub user: Option<Seq<char>>,
    pub spawning: Option<bool>,
    pub capacity: Option<i32>,
    pub notify_when_attacked: Option<bool>,
    pub name: Option<Seq<char>>,
    pub fatigue: Option<i32>,
    pub age_time: Option<Option<u32>>,
    pub body: Option<VecUpdateView<CreepPartUpdateView>>,
    pub action_log: Option<PowerCreepActionsUpdateView>,
}

impl DeepView for PowerCreep {
    type V = PowerCreepView;

    open spec fn deep_view(&self) -> PowerCreepView {
        PowerCreepView {
            id: self.id.deep_view(),
            room: self.room.deep_view(),
            x: self.x.deep_view(),
            y: self.y.deep_view(),
            hits: self.hits.deep_view(),
            hits_max: self.hits_max.deep_view(),
            user: self.user.deep_view(),
            spawning: self.spawning.deep_view(),
            capacity: self.capacity.deep_view(),
            notify_when_attacked: self.notify_when_attacked.deep_view(),
            name: self.name.deep_view(),
            fatigue: self.fatigue.deep_view(),
            age_time: self.age_time.deep_view(),
            body: self.body.deep_view(),
            action_log: self.action_log.deep_view(),
        }
    }
}

impl DeepView for PowerCreepUpdate {
    type V = PowerCreepUpdateView;

    open spec fn deep_view(&self) -> PowerCreepUpdateView {
        PowerCreepUpdateView {
            id: self.id.deep_view(),
            room: self.room.deep_view(),
            x: self.x.deep_view(),
            y: self.y.deep_view(),
            hits: self.hits.deep_view(),
            hits_max: self.hits_max.deep_view(),
            user: self.user.deep_view(),
            spawning: self.spawning.deep_view(),
            capacity: self.capacity.deep_view(),
            notify_when_attacked: self.notify_when_attacked.deep_view(),
            name: self.name.deep_view(),
            fatigue: self.fatigue.deep_view(),
            age_time: self.age_time.deep_view(),
            body: self.body.deep_view(),
            action_log: self.action_log.deep_view(),
        }
    }
}

impl Updatable for PowerCreep {
    type Update = PowerCreepUpdate;

    open spec fn applied(v: PowerCreepView, u: PowerCreepUpdateView) -> PowerCreepView {
        PowerCreepView {
            id: applied_field::<String>(v.id, u.id),
            room: applied_field::<RoomName>(v.room, u.room),
            x: applied_field::<u32>(v.x, u.x),
            y: applied_field::<u32>(v.y, u.y),
            hits: applied_field::<i32>(v.hits, u.hits),
            hits_max: applied_field::<i32>(v.hits_max, u.hits_max),
            user: applied_field::<String>(v.user, u.user),
            spawning: applied_field::<bool>(v.spawning, u.spawning),
            capacity: applied_field::<i32>(v.capacity, u.capacity),
            notify_when_attacked: applied_field::<bool>(v.notify_when_attacked, u.notify_when_attacked),
            name: applied_field::<String>(v.name, u.name),
            fatigue: applied_field::<i32>(v.fatigue, u.fatigue),
            age_time: applied_field::<Option<u32>>(v.age_time, u.age_time),
            body: applied_field::<Vec<CreepPart>>(v.body, u.body),
            action_log: applied_field::<PowerCreepActions>(v.action_log, u.action_log),
        }
    }

    open spec fn created(u: PowerCreepUpdateView) -> Option<PowerCreepView> {
        if created_field::<String>(u.id) is Some
            && created_field::<RoomName>(u.room) is Some
            && created_field::<u32>(u.x) is Some
            && created_field::<u32>(u.y) is Some
            && created_field::<i32>(u.hits) is Some
            && created_field::<i32>(u.hits_max) is Some
            && created_field::<String>(u.user) is Some
            && created_field::<bool>(u.spawning) is Some
            && created_field::<i32>(u.capacity) is Some
            && created_field::<bool>(u.notify_when_attacked) is Some
            && created_field::<String>(u.name) is Some
            && created_field::<i32>(u.fatigue) is Some
            && created_field::<Option<u32>>(u.age_time) is Some
            && created_field::<Vec<CreepPart>>(u.body) is Some
            && created_field::<PowerCreepActions>(u.action_log) is Some {
            Some(
                PowerCreepView {
                    id: created_field::<String>(u.id)->0,
                    room: created_field::<RoomName>(u.room)->0,
                    x: created_field::<u32>(u.x)->0,
                    y: created_field::<u32>(u.y)->0,
                    hits: created_field::<i32>(u.hits)->0,
                    hits_max: created_field::<i32>(u.hits_max)->0,
                    user: created_field::<String>(u.user)->0,
                    spawning: created_field::<bool>(u.spawning)->0,
                    capacity: created_field::<i32>(u.capacity)->0,
                    notify_when_attacked: created_field::<bool>(u.notify_when_attacked)->0,
                    name: created_field::<String>(u.name)->0,
                    fatigue: created_field::<i32>(u.fatigue)->0,
                    age_time: created_field::<Option<u32>>(u.age_time)->0,
                    body: created_field::<Vec<CreepPart>>(u.body)->0,
                    action_log: created_field::<PowerCreepActions>(u.action_log)->0,
                },
            )
        } else {
            None
        }
    }

    fn apply_update(&mut self, update: PowerCreepUpdate) {
        let PowerCreepUpdate { id, room, x, y, hits, hits_max, user, spawning, capacity, notify_when_attacked, name, fatigue, age_time, body, action_log } = update;
        apply_field(&mut self.id, id);
        apply_field(&mut self.room, room);
        apply_field(&mut self.x, x);
        apply_field(&mut self.y, y);
        apply_field(&mut self.hits, hits);
        apply_field(&mut self.hits_max, hits_max);
        apply_field(&mut self.user, user);
        apply_field(&mut self.spawning, spawning);
        apply_field(&mut self.capacity, capacity);
        apply_field(&mut self.notify_when_attacked, notify_when_attacked);
        apply_field(&mut self.name, name);
        apply_field(&mut self.fatigue, fatigue);
        apply_field(&mut self.age_time, age_time);
        apply_field(&mut self.body, body);
        apply_field(&mut self.action_log, action_log);
    }

    fn create_from_update(update: PowerCreepUpdate) -> (r: Option<PowerCreep>) {
        let PowerCreepUpdate { id, room, x, y, hits, hits_max, user, spawning, capacity, notify_when_attacked, name, fatigue, age_time, body, action_log } = update;
        let id = match id {
            Some(u) => match <String as Updatable>::create_from_update(u) {
                Some(v) => v,
                None => return None,
            },
            None => return None,
        };
        let room = match room {
            Some(u) => match <RoomName as Updatable>::create_from_update(u) {
                Some(v) => v,
                None => return None,
            },
            None => return None,
        };
        let x = match x {
            Some(u) => match <u32 as Updatable>::create_from_update(u) {
                Some(v) => v,
                None => return None,
            },
            None => return None,
        };
        let y = match y {
            Some(u) => match <u32 as Updatable>::create_from_update(u) {
                Some(v) => v,
                None => return None,
            },
            None => return None,
        };
        let hits = match hits {
            Some(u) => match <i32 as Updatable>::create_from_update(u) {
                Some(v) => v,
                None => return None,
            },
            None => return None,
        };
        let hits_max = match hits_max {
            Some(u) => match <i32 as Updatable>::create_from_update(u) {
                Some(v) => v,
                None => return None,
            },
            None => return None,
        };
        let user = match user {
            Some(u) => match <String as Updatable>::create_from_update(u) {
                Some(v) => v,
                None => return None,
            },
            None => return None,
        };
        let spawning = match spawning {
            Some(u) => match <bool as Updatable>::create_from_update(u) {
                Some(v) => v,
                None => return None,
            },
            None => return None,
        };
        let capacity = match capacity {
            Some(u) => match <i32 as Updatable>::create_from_update(u) {
                Some(v) => v,
                None => return None,
            },
            None => return None,
        };
        let notify_when_attacked = match notify_when_attacked {
            Some(u) => match <bool as Updatable>::create_from_update(u) {
                Some(v) => v,
                None => return None,
            },
            None => return None,
        };
        let name = match name {
            Some(u) => match <String as Updatable>::create_from_update(u) {
                Some(v) => v,
                None => return None,
            },
            None => return None,
        };
        let fatigue = match fatigue {
            Some(u) => match <i32 as Updatable>::create_from_update(u) {
                Some(v) => v,
                None => return None,
            },
            None => return None,
        };
        let age_time = match age_time {
            Some(u) => match <Option<u32> as Updatable>::create_from_update(u) {
                Some(v) => v,
                None => return None,
            },
            None => return None,
        };
        let body = match body {
            Some(u) => match <Vec<CreepPart> as Updatable>::create_from_update(u) {
                Some(v) => v,
                None => return None,
            },
            None => return None,
        };
        let action_log = match action_log {
            Some(u) => match <PowerCreepActions as Updatable>::create_from_update(u) {
                Some(v) => v,
                None => return None,
            },
            None => return None,
        };
        Some(PowerCreep { id, room, x, y, hits, hits_max, user, spawning, capacity, notify_when_attacked, name, fatigue, age_time, body, action_log })
    }
}

impl PowerCreep {
    /// Updates this structure with all values present in the given update.
    pub fn update(&mut self, update: PowerCreepUpdate)
        ensures
            final(self).deep_view() == <PowerCreep as Updatable>::applied(
                old(self).deep_view(),
                update.deep_view(),
            ),
    {
        self.apply_update(update);
    }
}

} // verus!
