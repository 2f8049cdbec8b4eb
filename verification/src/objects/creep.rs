//! `Creep` data description.
use vstd::prelude::*;

use crate::resources::{distinct_keys, entries_map, ResourceType};
use crate::room_name::RoomName;
use crate::store::{Store, StoreUpdate};
use crate::updatable::{Updatable, apply_field, applied_field, created_field, VecUpdate, VecUpdateView};
use super::shared::{ActionLogTarget, ActionLogTargetUpdate, ActionLogTargetUpdateView, ActionLogTargetView};

verus! {

/// A type of creep part.
#[derive(Copy, Clone, Debug, PartialEq, Eq, PartialOrd, Ord, Hash, Structural)]
pub enum CreepPartType {
    /// A move part - allows creeps to move, or move faster (max speed at 1 move part per other part).
    Move,
    /// A work part - allows creeps to spend energy doing things, mine sources and minerals, and damage
    /// structures.
    Work,
    /// A carry part - allows creeps to carry energy and other resources.
    Carry,
    /// An attack part - allows creeps to damage both other creeps, and structures.
    Attack,
    /// A heal part - allows creeps to heal creeps (other and self).
    Heal,
    /// A ranged attack part - allows creeps to attack other creeps and structures from a small distance.
    RangedAttack,
    /// A tough part - a cheap part which has no additional functionality.
    Tough,
    /// A claim part - a part which allows a creep to reserve or claim a room controller.
    Claim,
}

impl DeepView for CreepPartType {
    type V = CreepPartType;

    open spec fn deep_view(&self) -> CreepPartType {
        *self
    }
}

impl Updatable for CreepPartType {
    type Update = CreepPartType;

    open spec fn applied(v: CreepPartType, u: CreepPartType) -> CreepPartType {
        u
    }

    open spec fn created(u: CreepPartType) -> Option<CreepPartType> {
        Some(u)
    }

    fn apply_update(&mut self, update: CreepPartType) {
        *self = update;
    }

    fn create_from_update(update: CreepPartType) -> (r: Option<CreepPartType>) {
        Some(update)
    }
}


/// A struct describing a creep part.
#[derive(Clone, Debug, PartialEq)]
pub struct CreepPart {
    /// Part health, out of 100.
    pub hits: i32,
    /// Part type.
    pub part_type: CreepPartType,
    /// Part boost, if any.
    pub boost: Option<ResourceType>,
}

/// The abstract value of a `CreepPart`.
pub struct CreepPartView {
    pub hits: i32,
    pub part_type: CreepPartType,
    pub boost: Option<ResourceType>,
}

/// The update structure for a `CreepPart`.
///
/// Each field that is present replaces or updates the field of the same name.
#[derive(Clone, Debug, Default)]
pub struct CreepPartUpdate {
    pub hits: Option<i32>,
    pub part_type: Option<CreepPartType>,
    pub boost: Option<Option<ResourceType>>,
}

/// The abstract value of a `CreepPartUpdate`.
pub struct CreepPartUpdateView {
    pub hits: Option<i32>,
    pub part_type: Option<CreepPartType>,
    pub boost: Option<Option<ResourceType>>,
}

impl DeepView for CreepPart {
    type V = CreepPartView;

    open spec fn deep_view(&self) -> CreepPartView {
        CreepPartView {
            hits: self.hits.deep_view(),
            part_type: self.part_type.deep_view(),
            boost: self.boost.deep_view(),
        }
    }
}

impl DeepView for CreepPartUpdate {
    type V = CreepPartUpdateView;

    open spec fn deep_view(&self) -> CreepPartUpdateView {
        CreepPartUpdateView {
            hits: self.hits.deep_view(),
            part_type: self.part_type.deep_view(),
            boost: self.boost.deep_view(),
        }
    }
}

impl Updatable for CreepPart {
    type Update = CreepPartUpdate;

    open spec fn applied(v: CreepPartView, u: CreepPartUpdateView) -> CreepPartView {
        CreepPartView {
            hits: applied_field::<i32>(v.hits, u.hits),
            part_type: applied_field::<CreepPartType>(v.part_type, u.part_type),
            boost: applied_field::<Option<ResourceType>>(v.boost, u.boost),
        }
    }

    open spec fn created(u: CreepPartUpdateView) -> Option<CreepPartView> {
        if created_field::<i32>(u.hits) is Some
            && created_field::<CreepPartType>(u.part_type) is Some
            && created_field::<Option<ResourceType>>(u.boost) is Some {
            Some(
                CreepPartView {
                    hits: created_field::<i32>(u.hits)->0,
                    part_type: created_field::<CreepPartType>(u.part_type)->0,
                    boost: created_field::<Option<ResourceType>>(u.boost)->0,
                },
            )
        } else {
            None
        }
    }

    fn apply_update(&mut self, update: CreepPartUpdate) {
        let CreepPartUpdate { hits, part_type, boost } = update;
        apply_field(&mut self.hits, hits);
        apply_field(&mut self.part_type, part_type);
        apply_field(&mut self.boost, boost);
    }

    fn create_from_update(update: CreepPartUpdate) -> (r: Option<CreepPart>) {
        let CreepPartUpdate { hits, part_type, boost } = update;
        let hits = match hits {
            Some(u) => match <i32 as Updatable>::create_from_update(u) {
                Some(v) => v,
                None => return None,
            },
            None => return None,
        };
        let part_type = match part_type {
            Some(u) => match <CreepPartType as Updatable>::create_from_update(u) {
                Some(v) => v,
                None => return None,
            },
            None => return None,
        };
        let boost = match boost {
            Some(u) => match <Option<ResourceType> as Updatable>::create_from_update(u) {
                Some(v) => v,
                None => return None,
            },
            None => return None,
        };
        Some(CreepPart { hits, part_type, boost })
    }
}

impl CreepPart {
    /// Updates this structure with all values present in the given update.
    pub fn update(&mut self, update: CreepPartUpdate)
        ensures
            final(self).deep_view() == <CreepPart as Updatable>::applied(
                old(self).deep_view(),
                update.deep_view(),
            ),
    {
        self.apply_update(update);
    }
}

/// A struct describing a creep's message conveyed with `say`.
#[derive(Clone, Debug, PartialEq)]
pub struct CreepMessage {
    /// If true, the message is visible to all players.
    pub is_public: bool,
    /// The message.
    pub message: String,
}

/// The abstract value of a `CreepMessage`.
pub struct CreepMessageView {
    pub is_public: bool,
    pub message: Seq<char>,
}

/// The update structure for a `CreepMessage`.
///
/// Each field that is present replaces or updates the field of the same name.
#[derive(Clone, Debug, Default)]
pub struct CreepMessageUpdate {
    pub is_public: Option<bool>,
    pub message: Option<String>,
}

/// The abstract value of a `CreepMessageUpdate`.
pub struct CreepMessageUpdateView {
    pub is_public: Option<bool>,
    pub message: Option<Seq<char>>,
}

impl DeepView for CreepMessage {
    type V = CreepMessageView;

    open spec fn deep_view(&self) -> CreepMessageView {
        CreepMessageView {
            is_public: self.is_public.deep_view(),
            message: self.message.deep_view(),
        }
    }
}

impl DeepView for CreepMessageUpdate {
    type V = CreepMessageUpdateView;

    open spec fn deep_view(&self) -> CreepMessageUpdateView {
        CreepMessageUpdateView {
            is_public: self.is_public.deep_view(),
            message: self.message.deep_view(),
        }
    }
}

impl Updatable for CreepMessage {
    type Update = CreepMessageUpdate;

    open spec fn applied(v: CreepMessageView, u: CreepMessageUpdateView) -> CreepMessageView {
        CreepMessageView {
            is_public: applied_field::<bool>(v.is_public, u.is_public),
            message: applied_field::<String>(v.message, u.message),
        }
    }

    open spec fn created(u: CreepMessageUpdateView) -> Option<CreepMessageView> {
        if created_field::<bool>(u.is_public) is Some
            && created_field::<String>(u.message) is Some {
            Some(
                CreepMessageView {
                    is_public: created_field::<bool>(u.is_public)->0,
                    message: created_field::<String>(u.message)->0,
                },
            )
        } else {
            None
        }
    }

    fn apply_update(&mut self, update: CreepMessageUpdate) {
        let CreepMessageUpdate { is_public, message } = update;
        apply_field(&mut self.is_public, is_public);
        apply_field(&mut self.message, message);
    }

    fn create_from_update(update: CreepMessageUpdate) -> (r: Option<CreepMessage>) {
        let CreepMessageUpdate { is_public, message } = update;
        let is_public = match is_public {
            Some(u) => match <bool as Updatable>::create_from_update(u) {
                Some(v) => v,
                None => return None,
            },
            None => return None,
        };
        let message = match message {
            Some(u) => match <String as Updatable>::create_from_update(u) {
                Some(v) => v,
                None => return None,
            },
            None => return None,
        };
        Some(CreepMessage { is_public, message })
    }
}

impl CreepMessage {
    /// Updates this structure with all values present in the given update.
    pub fn update(&mut self, update: CreepMessageUpdate)
        ensures
            final(self).deep_view() == <CreepMessage as Updatable>::applied(
                old(self).deep_view(),
                update.deep_view(),
            ),
    {
        self.apply_update(update);
    }
}

/// A struct describing a creep's actions.
#[derive(Clone, Debug, PartialEq)]
pub struct CreepActions {
    /// The location this creep harvested last tick.
    pub harvest: Option<ActionLogTarget>,
    /// The location this creep built to last tick.
    pub build: Option<ActionLogTarget>,
    /// The location this creep repaired last tick.
    pub repair: Option<ActionLogTarget>,
    /// The location this creep attacked last tick.
    pub attack: Option<ActionLogTarget>,
    /// The location this creep healed last tick.
    pub heal: Option<ActionLogTarget>,
    /// The location this creep range-attacked last tick.
    pub ranged_attack: Option<ActionLogTarget>,
    /// The location this creep range-healed last tick.
    pub ranged_heal: Option<ActionLogTarget>,
    /// If present, this creep made a ranged mass attack last tick.
    pub ranged_mass_attack: Option<ActionLogTarget>,
    /// The location of the controller this creep reserved last tick.
    pub reserve_controller: Option<ActionLogTarget>,
    /// The location of the controller this creep upgraded last tick.
    pub upgrade_controller: Option<ActionLogTarget>,
    /// The location this creep was attacked from last tick.
    pub attacked: Option<ActionLogTarget>,
    /// The location this creep was healed from last tick.
    pub healed: Option<ActionLogTarget>,
    /// The message this creep said last tick.
    pub say: Option<CreepMessage>,
}

/// The abstract value of a `CreepActions`.
pub struct CreepActionsView {
    pub harvest: Option<ActionLogTargetView>,
    pub build: Option<ActionLogTargetView>,
    pub repair: Option<ActionLogTargetView>,
    pub attack: Option<ActionLogTargetView>,
    pub heal: Option<ActionLogTargetView>,
    pub ranged_attack: Option<ActionLogTargetView>,
    pub ranged_heal: Option<ActionLogTargetView>,
    pub ranged_mass_attack: Option<ActionLogTargetView>,
    pub reserve_controller: Option<ActionLogTargetView>,
    pub upgrade_controller: Option<ActionLogTargetView>,
    pub attacked: Option<ActionLogTargetView>,
    pub healed: Option<ActionLogTargetView>,
    pub say: Option<CreepMessageView>,
}

/// The update structure for a `CreepActions`.
///
/// Each field that is present replaces or updates the field of the same name.
#[derive(Clone, Debug, Default)]
pub struct CreepActionsUpdate {
    pub harvest: Option<Option<ActionLogTargetUpdate>>,
    pub build: Option<Option<ActionLogTargetUpdate>>,
    pub repair: Option<Option<ActionLogTargetUpdate>>,
    pub attack: Option<Option<ActionLogTargetUpdate>>,
    pub heal: Option<Option<ActionLogTargetUpdate>>,
    pub ranged_attack: Option<Option<ActionLogTargetUpdate>>,
    pub ranged_heal: Option<Option<ActionLogTargetUpdate>>,
    pub ranged_mass_attack: Option<Option<ActionLogTargetUpdate>>,
    pub reserve_controller: Option<Option<ActionLogTargetUpdate>>,
    pub upgrade_controller: Option<Option<ActionLogTargetUpdate>>,
    pub attacked: Option<Option<ActionLogTargetUpdate>>,
    pub healed: Option<Option<ActionLogTargetUpdate>>,
    pub say: Option<Option<CreepMessageUpdate>>,
}

/// The abstract value of a `CreepActionsUpdate`.
pub struct CreepActionsUpdateView {
    pub harvest: Option<Option<ActionLogTargetUpdateView>>,
    pub build: Option<Option<ActionLogTargetUpdateView>>,
    pub repair: Option<Option<ActionLogTargetUpdateView>>,
    pub attack: Option<Option<ActionLogTargetUpdateView>>,
    pub heal: Option<Option<ActionLogTargetUpdateView>>,
    pub ranged_attack: Option<Option<ActionLogTargetUpdateView>>,
    pub ranged_heal: Option<Option<ActionLogTargetUpdateView>>,
    pub ranged_mass_attack: Option<Option<ActionLogTargetUpdateView>>,
    pub reserve_controller: Option<Option<ActionLogTargetUpdateView>>,
    pub upgrade_controller: Option<Option<ActionLogTargetUpdateView>>,
    pub attacked: Option<Option<ActionLogTargetUpdateView>>,
    pub healed: Option<Option<ActionLogTargetUpdateView>>,
    pub say: Option<Option<CreepMessageUpdateView>>,
}

impl DeepView for CreepActions {
    type V = CreepActionsView;

    open spec fn deep_view(&self) -> CreepActionsView {
        CreepActionsView {
            harvest: self.harvest.deep_view(),
            build: self.build.deep_view(),
            repair: self.repair.deep_view(),
            attack: self.attack.deep_view(),
            heal: self.heal.deep_view(),
            ranged_attack: self.ranged_attack.deep_view(),
            ranged_heal: self.ranged_heal.deep_view(),
            ranged_mass_attack: self.ranged_mass_attack.deep_view(),
            reserve_controller: self.reserve_controller.deep_view(),
            upgrade_controller: self.upgrade_controller.deep_view(),
            attacked: self.attacked.deep_view(),
            healed: self.healed.deep_view(),
            say: self.say.deep_view(),
        }
    }
}

impl DeepView for CreepActionsUpdate {
    type V = CreepActionsUpdateView;

    open spec fn deep_view(&self) -> CreepActionsUpdateView {
        CreepActionsUpdateView {
            harvest: self.harvest.deep_view(),
            build: self.build.deep_view(),
            repair: self.repair.deep_view(),
            attack: self.attack.deep_view(),
            heal: self.heal.deep_view(),
            ranged_attack: self.ranged_attack.deep_view(),
            ranged_heal: self.ranged_heal.deep_view(),
            ranged_mass_attack: self.ranged_mass_attack.deep_view(),
            reserve_controller: self.reserve_controller.deep_view(),
            upgrade_controller: self.upgrade_controller.deep_view(),
            attacked: self.attacked.deep_view(),
            healed: self.healed.deep_view(),
            say: self.say.deep_view(),
        }
    }
}

impl Updatable for CreepActions {
    type Update = CreepActionsUpdate;

    open spec fn applied(v: CreepActionsView, u: CreepActionsUpdateView) -> CreepActionsView {
        CreepActionsView {
            harvest: applied_field::<Option<ActionLogTarget>>(v.harvest, u.harvest),
            build: applied_field::<Option<ActionLogTarget>>(v.build, u.build),
            repair: applied_field::<Option<ActionLogTarget>>(v.repair, u.repair),
            attack: applied_field::<Option<ActionLogTarget>>(v.attack, u.attack),
            heal: applied_field::<Option<ActionLogTarget>>(v.heal, u.heal),
            ranged_attack: applied_field::<Option<ActionLogTarget>>(v.ranged_attack, u.ranged_attack),
            ranged_heal: applied_field::<Option<ActionLogTarget>>(v.ranged_heal, u.ranged_heal),
            ranged_mass_attack: applied_field::<Option<ActionLogTarget>>(v.ranged_mass_attack, u.ranged_mass_attack),
            reserve_controller: applied_field::<Option<ActionLogTarget>>(v.reserve_controller, u.reserve_controller),
            upgrade_controller: applied_field::<Option<ActionLogTarget>>(v.upgrade_controller, u.upgrade_controller),
            attacked: applied_field::<Option<ActionLogTarget>>(v.attacked, u.attacked),
            healed: applied_field::<Option<ActionLogTarget>>(v.healed, u.healed),
            say: applied_field::<Option<CreepMessage>>(v.say, u.say),
        }
    }

    open spec fn created(u: CreepActionsUpdateView) -> Option<CreepActionsView> {
        if created_field::<Option<ActionLogTarget>>(u.harvest) is Some
            && created_field::<Option<ActionLogTarget>>(u.build) is Some
            && created_field::<Option<ActionLogTarget>>(u.repair) is Some
            && created_field::<Option<ActionLogTarget>>(u.attack) is Some
            && created_field::<Option<ActionLogTarget>>(u.heal) is Some
            && created_field::<Option<ActionLogTarget>>(u.ranged_attack) is Some
            && created_field::<Option<ActionLogTarget>>(u.ranged_heal) is Some
            && created_field::<Option<ActionLogTarget>>(u.ranged_mass_attack) is Some
            && created_field::<Option<ActionLogTarget>>(u.reserve_controller) is Some
            && created_field::<Option<ActionLogTarget>>(u.upgrade_controller) is Some
            && created_field::<Option<ActionLogTarget>>(u.attacked) is Some
            && created_field::<Option<ActionLogTarget>>(u.healed) is Some
            && created_field::<Option<CreepMessage>>(u.say) is Some {
            Some(
                CreepActionsView {
                    harvest: created_field::<Option<ActionLogTarget>>(u.harvest)->0,
                    build: created_field::<Option<ActionLogTarget>>(u.build)->0,
                    repair: created_field::<Option<ActionLogTarget>>(u.repair)->0,
                    attack: created_field::<Option<ActionLogTarget>>(u.attack)->0,
                    heal: created_field::<Option<ActionLogTarget>>(u.heal)->0,
                    ranged_attack: created_field::<Option<ActionLogTarget>>(u.ranged_attack)->0,
                    ranged_heal: created_field::<Option<ActionLogTarget>>(u.ranged_heal)->0,
                    ranged_mass_attack: created_field::<Option<ActionLogTarget>>(u.ranged_mass_attack)->0,
                    reserve_controller: created_field::<Option<ActionLogTarget>>(u.reserve_controller)->0,
                    upgrade_controller: created_field::<Option<ActionLogTarget>>(u.upgrade_controller)->0,
                    attacked: created_field::<Option<ActionLogTarget>>(u.attacked)->0,
                    healed: created_field::<Option<ActionLogTarget>>(u.healed)->0,
                    say: created_field::<Option<CreepMessage>>(u.say)->0,
                },
            )
        } else {
            None
        }
    }

    fn apply_update(&mut self, update: CreepActionsUpdate) {
        let CreepActionsUpdate { harvest, build, repair, attack, heal, ranged_attack, ranged_heal, ranged_mass_attack, reserve_controller, upgrade_controller, attacked, healed, say } = update;
        apply_field(&mut self.harvest, harvest);
        apply_field(&mut self.build, build);
        apply_field(&mut self.repair, repair);
        apply_field(&mut self.attack, attack);
        apply_field(&mut self.heal, heal);
        apply_field(&mut self.ranged_attack, ranged_attack);
        apply_field(&mut self.ranged_heal, ranged_heal);
        apply_field(&mut self.ranged_mass_attack, ranged_mass_attack);
        apply_field(&mut self.reserve_controller, reserve_controller);
        apply_field(&mut self.upgrade_controller, upgrade_controller);
        apply_field(&mut self.attacked, attacked);
        apply_field(&mut self.healed, healed);
        apply_field(&mut self.say, say);
    }

    fn create_from_update(update: CreepActionsUpdate) -> (r: Option<CreepActions>) {
        let CreepActionsUpdate { harvest, build, repair, attack, heal, ranged_attack, ranged_heal, ranged_mass_attack, reserve_controller, upgrade_controller, attacked, healed, say } = update;
        let harvest = match harvest {
            Some(u) => match <Option<ActionLogTarget> as Updatable>::create_from_update(u) {
                Some(v) => v,
                None => return None,
            },
            None => return None,
        };
        let build = match build {
            Some(u) => match <Option<ActionLogTarget> as Updatable>::create_from_update(u) {
                Some(v) => v,
                None => return None,
            },
            None => return None,
        };
        let repair = match repair {
            Some(u) => match <Option<ActionLogTarget> as Updatable>::create_from_update(u) {
                Some(v) => v,
                None => return None,
            },
            None => return None,
        };
        let attack = match attack {
            Some(u) => match <Option<ActionLogTarget> as Updatable>::create_from_update(u) {
                Some(v) => v,
                None => return None,
            },
            None => return None,
        };
        let heal = match heal {
            Some(u) => match <Option<ActionLogTarget> as Updatable>::create_from_update(u) {
                Some(v) => v,
                None => return None,
            },
            None => return None,
        };
        let ranged_attack = match ranged_attack {
            Some(u) => match <Option<ActionLogTarget> as Updatable>::create_from_update(u) {
                Some(v) => v,
                None => return None,
            },
            None => return None,
        };
        let ranged_heal = match ranged_heal {
            Some(u) => match <Option<ActionLogTarget> as Updatable>::create_from_update(u) {
                Some(v) => v,
                None => return None,
            },
            None => return None,
        };
        let ranged_mass_attack = match ranged_mass_attack {
            Some(u) => match <Option<ActionLogTarget> as Updatable>::create_from_update(u) {
                Some(v) => v,
                None => return None,
            },
            None => return None,
        };
        let reserve_controller = match reserve_controller {
            Some(u) => match <Option<ActionLogTarget> as Updatable>::create_from_update(u) {
                Some(v) => v,
                None => return None,
            },
            None => return None,
        };
        let upgrade_controller = match upgrade_controller {
            Some(u) => match <Option<ActionLogTarget> as Updatable>::create_from_update(u) {
                Some(v) => v,
                None => return None,
            },
            None => return None,
        };
        let attacked = match attacked {
            Some(u) => match <Option<ActionLogTarget> as Updatable>::create_from_update(u) {
                Some(v) => v,
                None => return None,
            },
            None => return None,
        };
        let healed = match healed {
            Some(u) => match <Option<ActionLogTarget> as Updatable>::create_from_update(u) {
                Some(v) => v,
                None => return None,
            },
            None => return None,
        };
        let say = match say {
            Some(u) => match <Option<CreepMessage> as Updatable>::create_from_update(u) {
                Some(v) => v,
                None => return None,
            },
            None => return None,
        };
        Some(CreepActions { harvest, build, repair, attack, heal, ranged_attack, ranged_heal, ranged_mass_attack, reserve_controller, upgrade_controller, attacked, healed, say })
    }
}

impl CreepActions {
    /// Updates this structure with all values present in the given update.
    pub fn update(&mut self, update: CreepActionsUpdate)
        ensures
            final(self).deep_view() == <CreepActions as Updatable>::applied(
                old(self).deep_view(),
                update.deep_view(),
            ),
    {
        self.apply_update(update);
    }
}

/// A creep object.
#[derive(Clone, Debug, PartialEq)]
pub struct Creep {
    /// Unique 'id' identifier for all game objects on a server.
    pub id: String,
    /// Room object is in.
    pub room: RoomName,
    /// X position within the room (0-50).
    pub x: u32,
    /// Y position within the room (0-50).
    pub y: u32,
    /// The current number of hit-points this structure has.
    pub hits: i32,
    /// The maximum number of hit-points this structure has.
    pub hits_max: i32,
    /// The user ID of the owner of this creep.
    pub user: String,
    /// Whether or not this creep is currently being constructed 'inside' a spawner. If this is the case,
    /// it cannot perform any actions.
    pub spawning: bool,
    /// The total amount of resources this creep can carry.
    pub capacity: i32,
    /// Whether or not an attack on this creep will send an email to the owner automatically..
    pub notify_when_attacked: bool,
    /// The name of this creep, unique per player.
    pub name: String,
    /// The current 'fatigue' of this creep. If higher than 0, this creep cannot execute a move action this tick.
    pub fatigue: i32,
    /// The game time at which this creep will die if not renewed further before then.
    ///
    /// None if the creep is still spawning.
    pub age_time: Option<u32>,
    /// A list of parts on this creep, and their current states.
    pub body: Vec<CreepPart>,
    /// A record of all actions this creep performed and some actions performed onto this creep last tick.
    pub action_log: CreepActions,
    /// The resources and amounts of each resource some game object holds.
    pub store: Store,
}

/// The abstract value of a `Creep`.
pub struct CreepView {
    pub id: Seq<char>,
    pub room: RoomName,
    pub x: u32,
    pub y: u32,
    pub hits: i32,
    pub hits_max: i32,
    pub user: Seq<char>,
    pub spawning: bool,
    pub capacity: i32,
    pub notify_when_attacked: bool,
    pub name: Seq<char>,
    pub fatigue: i32,
    pub age_time: Option<u32>,
    pub body: Seq<CreepPartView>,
    pub action_log: CreepActionsView,
    pub store: Map<ResourceType, i32>,
}

/// The update structure for a `Creep`.
///
/// Each field that is present replaces or updates the field of the same name.
#[derive(Clone, Debug, Default)]
pub struct CreepUpdate {
    pub id: Option<String>,
    pub room: Option<RoomName>,
    pub x: Option<u32>,
    pub y: Option<u32>,
    pub hits: Option<i32>,
    pub hits_max: Option<i32>,
    pub user: Option<String>,
    pub spawning: Option<bool>,
    pub capacity: Option<i32>,
    pub notify_when_attacked: Option<bool>,
    pub name: Option<String>,
    pub fatigue: Option<i32>,
    pub age_time: Option<Option<u32>>,
    pub body: Option<VecUpdate<CreepPartUpdate>>,
    pub action_log: Option<CreepActionsUpdate>,
    pub store: Option<StoreUpdate>,
}

/// The abstract value of a `CreepUpdate`.
pub struct CreepUpdateView {
    pub id: Option<Seq<char>>,
    pub room: Option<RoomName>,
    pub x: Option<u32>,
    pub y: Option<u32>,
    pub hits: Option<i32>,
    pub hits_max: Option<i32>,
    pub user: Option<Seq<char>>,
    pub spawning: Option<bool>,
    pub capacity: Option<i32>,
    pub notify_when_attacked: Option<bool>,
    pub name: Option<Seq<char>>,
    pub fatigue: Option<i32>,
    pub age_time: Option<Option<u32>>,
    pub body: Option<VecUpdateView<CreepPartUpdateView>>,
    pub action_log: Option<CreepActionsUpdateView>,
    pub store: Option<Map<ResourceType, i32>>,
}

impl DeepView for Creep {
    type V = CreepView;

    open spec fn deep_view(&self) -> CreepView {
        CreepView {
            id: self.id.deep_view(),
            room: self.room.deep_view(),
            x: self.x.deep_view(),
            y: self.y.deep_view(),
            hits: self.hits.deep_view(),
            hits_max: self.hits_max.deep_view(),
            user: self.user.deep_view(),
            spawning: self.spawning.deep_view(),
            capacity: self.capacity.deep_view(),
            notify_when_attacked: self.notify_when_attacked.deep_view(),
            name: self.name.deep_view(),
            fatigue: self.fatigue.deep_view(),
            age_time: self.age_time.deep_view(),
            body: self.body.deep_view(),
            action_log: self.action_log.deep_view(),
            store: self.store.deep_view(),
        }
    }
}

impl DeepView for CreepUpdate {
    type V = CreepUpdateView;

    open spec fn deep_view(&self) -> CreepUpdateView {
        CreepUpdateView {
            id: self.id.deep_view(),
            room: self.room.deep_view(),
            x: self.x.deep_view(),
            y: self.y.deep_view(),
            hits: self.hits.deep_view(),
            hits_max: self.hits_max.deep_view(),
            user: self.user.deep_view(),
            spawning: self.spawning.deep_view(),
            capacity: self.capacity.deep_view(),
            notify_when_attacked: self.notify_when_attacked.deep_view(),
            name: self.name.deep_view(),
            fatigue: self.fatigue.deep_view(),
            age_time: self.age_time.deep_view(),
            body: self.body.deep_view(),
            action_log: self.action_log.deep_view(),
            store: self.store.deep_view(),
        }
    }
}

impl Updatable for Creep {
    type Update = CreepUpdate;

    open spec fn applied(v: CreepView, u: CreepUpdateView) -> CreepView {
        CreepView {
            id: applied_field::<String>(v.id, u.id),
            room: applied_field::<RoomName>(v.room, u.room),
            x: applied_field::<u32>(v.x, u.x),
            y: applied_field::<u32>(v.y, u.y),
            hits: applied_field::<i32>(v.hits, u.hits),
            hits_max: applied_field::<i32>(v.hits_max, u.hits_max),
            user: applied_field::<String>(v.user, u.user),
            spawning: applied_field::<bool>(v.spawning, u.spawning),
            capacity: applied_field::<i32>(v.capacity, u.capacity),
            notify_when_attacked: applied_field::<bool>(v.notify_when_attacked, u.notify_when_attacked),
            name: applied_field::<String>(v.name, u.name),
            fatigue: applied_field::<i32>(v.fatigue, u.fatigue),
            age_time: applied_field::<Option<u32>>(v.age_time, u.age_time),
            body: applied_field::<Vec<CreepPart>>(v.body, u.body),
            action_log: applied_field::<CreepActions>(v.action_log, u.action_log),
            store: applied_field::<Store>(v.store, u.store),
        }
    }

    open spec fn created(u: CreepUpdateView) -> Option<CreepView> {
        if created_field::<String>(u.id) is Some
            && created_field::<RoomName>(u.room) is Some
            && created_field::<u32>(u.x) is Some
            && created_field::<u32>(u.y) is Some
            && created_field::<i32>(u.hits) is Some
            && created_field::<i32>(u.hits_max) is Some
            && created_field::<String>(u.user) is Some
            && created_field::<bool>(u.spawning) is Some
            && created_field::<i32>(u.capacity) is Some
            && created_field::<bool>(u.notify_when_attacked) is Some
            && created_field::<String>(u.name) is Some
            && created_field::<i32>(u.fatigue) is Some
            && created_field::<Option<u32>>(u.age_time) is Some
            && created_field::<Vec<CreepPart>>(u.body) is Some
            && created_field::<CreepActions>(u.action_log) is Some
            && created_field::<Store>(u.store) is Some {
            Some(
                CreepView {
                    id: created_field::<String>(u.id)->0,
                    room: created_field::<RoomName>(u.room)->0,
                    x: created_field::<u32>(u.x)->0,
                    y: created_field::<u32>(u.y)->0,
                    hits: created_field::<i32>(u.hits)->0,
                    hits_max: created_field::<i32>(u.hits_max)->0,
                    user: created_field::<String>(u.user)->0,
                    spawning: created_field::<bool>(u.spawning)->0,
                    capacity: created_field::<i32>(u.capacity)->0,
                    notify_when_attacked: created_field::<bool>(u.notify_when_attacked)->0,
                    name: created_field::<String>(u.name)->0,
                    fatigue: created_field::<i32>(u.fatigue)->0,
                    age_time: created_field::<Option<u32>>(u.age_time)->0,
                    body: created_field::<Vec<CreepPart>>(u.body)->0,
                    action_log: created_field::<CreepActions>(u.action_log)->0,
                    store: created_field::<Store>(u.store)->0,
                },
            )
        } else {
            None
        }
    }

    fn apply_update(&mut self, update: CreepUpdate) {
        let CreepUpdate { id, room, x, y, hits, hits_max, user, spawning, capacity, notify_when_attacked, name, fatigue, age_time, body, action_log, store } = update;
        apply_field(&mut self.id, id);
        apply_field(&mut self.room, room);
        apply_field(&mut self.x, x);
        apply_field(&mut self.y, y);
        apply_field(&mut self.hits, hits);
        apply_field(&mut self.hits_max, hits_max);
        apply_field(&mut self.user, user);
        apply_field(&mut self.spawning, spawning);
        apply_field(&mut self.capacity, capacity);
        apply_field(&mut self.notify_when_attacked, notify_when_attacked);
        apply_field(&mut self.name, name);
        apply_field(&mut self.fatigue, fatigue);
        apply_field(&mut self.age_time, age_time);
        apply_field(&mut self.body, body);
        apply_field(&mut self.action_log, action_log);
        apply_field(&mut self.store, store);
    }

    fn create_from_update(update: CreepUpdate) -> (r: Option<Creep>) {
        let CreepUpdate { id, room, x, y, hits, hits_max, user, spawning, capacity, notify_when_attacked, name, fatigue, age_time, body, action_log, store } = update;
        let id = match id {
            Some(u) => match <String as Updatable>::create_from_update(u) {
                Some(v) => v,
                None => return None,
            },
            None => return None,
        };
        let room = match room {
            Some(u) => match <RoomName as Updatable>::create_from_update(u) {
                Some(v) => v,
                None => return None,
            },
            None => return None,
        };
        let x = match x {
            Some(u) => match <u32 as Updatable>::create_from_update(u) {
                Some(v) => v,
                None => return None,
            },
            None => return None,
        };
        let y = match y {
            Some(u) => match <u32 as Updatable>::create_from_update(u) {
                Some(v) => v,
                None => return None,
            },
            None => return None,
        };
        let hits = match hits {
            Some(u) => match <i32 as Updatable>::create_from_update(u) {
                Some(v) => v,
                None => return None,
            },
            None => return None,
        };
        let hits_max = match hits_max {
            Some(u) => match <i32 as Updatable>::create_from_update(u) {
                Some(v) => v,
                None => return None,
            },
            None => return None,
        };
        let user = match user {
            Some(u) => match <String as Updatable>::create_from_update(u) {
                Some(v) => v,
                None => return None,
            },
            None => return None,
        };
        let spawning = match spawning {
            Some(u) => match <bool as Updatable>::create_from_update(u) {
                Some(v) => v,
                None => return None,
            },
            None => return None,
        };
        let capacity = match capacity {
            Some(u) => match <i32 as Updatable>::create_from_update(u) {
                Some(v) => v,
                None => return None,
            },
            None => return None,
        };
        let notify_when_attacked = match notify_when_attacked {
            Some(u) => match <bool as Updatable>::create_from_update(u) {
                Some(v) => v,
                None => return None,
            },
            None => return None,
        };
        let name = match name {
            Some(u) => match <String as Updatable>::create_from_update(u) {
                Some(v) => v,
                None => return None,
            },
            None => return None,
        };
        let fatigue = match fatigue {
            Some(u) => match <i32 as Updatable>::create_from_update(u) {
                Some(v) => v,
                None => return None,
            },
            None => return None,
        };
        let age_time = match age_time {
            Some(u) => match <Option<u32> as Updatable>::create_from_update(u) {
                Some(v) => v,
                None => return None,
            },
            None => return None,
        };
        let body = match body {
            Some(u) => match <Vec<CreepPart> as Updatable>::create_from_update(u) {
                Some(v) => v,
                None => return None,
            },
            None => return None,
        };
        let action_log = match action_log {
            Some(u) => match <CreepActions as Updatable>::create_from_update(u) {
                Some(v) => v,
                None => return None,
            },
            None => return None,
        };
        let store = match store {
            Some(u) => match <Store as Updatable>::create_from_update(u) {
                Some(v) => v,
                None => return None,
            },
            None => return None,
        };
        Some(Creep { id, room, x, y, hits, hits_max, user, spawning, capacity, notify_when_attacked, name, fatigue, age_time, body, action_log, store })
    }
}

impl Creep {
    /// Updates this structure with all values present in the given update.
    pub fn update(&mut self, update: CreepUpdate)
        ensures
            final(self).deep_view() == <Creep as Updatable>::applied(
                old(self).deep_view(),
                update.deep_view(),
            ),
    {
        self.apply_update(update);
    }
}

impl Creep {
    /// This creep's carried resources: each resource type with its amount, each once.
    pub fn carry_contents(&self) -> (r: Vec<(ResourceType, i32)>)
        ensures
            distinct_keys(r@),
            entries_map(r@) == self.store@,
    {
        self.store.iter()
    }
}

} // verus!
