//! `StructureLab` data description.
use vstd::prelude::*;

use crate::resources::ResourceType;
use crate::room_name::RoomName;
use crate::store::{Store, StoreUpdate};
use crate::updatable::{Updatable, apply_field, applied_field, created_field};

verus! {

/// A lab structure - a structure that can be filled with energy and minerals, merge minerals with
/// minerals from other labs, and use minerals and energy to boost creeps.
#[derive(Clone, Debug, PartialEq)]
pub struct StructureLab {
    /// Unique 'id' identifier for all game objects on a server.
    pub id: String,
    /// Room object is in.
    pub room: RoomName,
    /// X position within the room (0-50).
    pub x: u32,
    /// Y position within the room (0-50).
    pub y: u32,
    /// The current number of hit-points this structure has.
    pub hits: i32,
    /// The maximum number of hit-points this structure has.
    pub hits_max: i32,
    /// The user ID of the owner of this structure.
    pub user: String,
    /// Whether or not this structure is non-functional due to a degraded controller.
    pub disabled: bool,
    /// The amount of energy and a mineral or a compound that is stored in this structure.
    pub store: Store,
    /// The total amount of each resource that can be stored in this structure.
    pub capacity_resource: Store,
    /// The tick until which this lab can't run any reactions.
    pub cooldown_time: i32,
    /// A record of all actions this structure performed last tick.
    pub action_log: StructureLabActions,
    /// Whether or not an attack on this structure will send an email to the owner automatically.
    pub notify_when_attacked: bool,
}

/// The abstract value of a `StructureLab`.
pub struct StructureLabView {
    pub id: Seq<char>,
    pub room: RoomName,
    pub x: u32,
    pub y: u32,
    pub hits: i32,
    pub hits_max: i32,
    pub user: Seq<char>,
    pub disabled: bool,
    pub store: Map<ResourceType, i32>,
    pub capacity_resource: Map<ResourceType, i32>,
    pub cooldown_time: i32,
    pub action_log: StructureLabActionsView,
    pub notify_when_attacked: bool,
}

/// The update structure for a `StructureLab`.
///
/// Each field that is present replaces or updates the field of the same name.
#[derive(Clone, Debug, Default)]
pub struct StructureLabUpdate {
    pub id: Option<String>,
    pub room: Option<RoomName>,
    pub x: Option<u32>,
    pub y: Option<u32>,
    pub hits: Option<i32>,
    pub hits_max: Option<i32>,
    pub user: Option<String>,
    pub disabled: Option<bool>,
    pub store: Option<StoreUpdate>,
    pub capacity_resource: Option<StoreUpdate>,
    pub cooldown_time: Option<i32>,
    pub action_log: Option<StructureLabActionsUpdate>,
    pub notify_when_attacked: Option<bool>,
}

/// The abstract value of a `StructureLabUpdate`.
pub struct StructureLabUpdateView {
    pub id: Option<Seq<char>>,
    pub room: Option<RoomName>,
    pub x: Option<u32>,
    pub y: Option<u32>,
    pub hits: Option<i32>,
    pub hits_max: Option<i32>,
    pub user: Option<Seq<char>>,
    pub disabled: Option<bool>,
    pub store: Option<Map<ResourceType, i32>>,
    pub capacity_resource: Option<Map<ResourceType, i32>>,
    pub cooldown_time: Option<i32>,
    pub action_log: Option<StructureLabActionsUpdateView>,
    pub notify_when_attacked: Option<bool>,
}

impl DeepView for StructureLab {
    type V = StructureLabView;

    open spec fn deep_view(&self) -> StructureLabView {
        StructureLabView {
            id: self.id.deep_view(),
            room: self.room.deep_view(),
            x: self.x.deep_view(),
            y: self.y.deep_view(),
            hits: self.hits.deep_view(),
            hits_max: self.hits_max.deep_view(),
            user: self.user.deep_view(),
            disabled: self.disabled.deep_view(),
            store: self.store.deep_view(),
            capacity_resource: self.capacity_resource.deep_view(),
            cooldown_time: self.cooldown_time.deep_view(),
            action_log: self.action_log.deep_view(),
            notify_when_attacked: self.notify_when_attacked.deep_view(),
        }
    }
}

impl DeepView for StructureLabUpdate {
    type V = StructureLabUpdateView;

    open spec fn deep_view(&self) -> StructureLabUpdateView {
        StructureLabUpdateView {
            id: self.id.deep_view(),
            room: self.room.deep_view(),
            x: self.x.deep_view(),
            y: self.y.deep_view(),
            hits: self.hits.deep_view(),
            hits_max: self.hits_max.deep_view(),
            user: self.user.deep_view(),
            disabled: self.disabled.deep_view(),
            store: self.store.deep_view(),
            capacity_resource: self.capacity_resource.deep_view(),
            cooldown_time: self.cooldown_time.deep_view(),
            action_log: self.action_log.deep_view(),
            notify_when_attacked: self.notify_when_attacked.deep_view(),
        }
    }
}

impl Updatable for StructureLab {
    type Update = StructureLabUpdate;

    open spec fn applied(v: StructureLabView, u: StructureLabUpdateView) -> StructureLabView {
        StructureLabView {
            id: applied_field::<String>(v.id, u.id),
            room: applied_field::<RoomName>(v.room, u.room),
            x: applied_field::<u32>(v.x, u.x),
            y: applied_field::<u32>(v.y, u.y),
            hits: applied_field::<i32>(v.hits, u.hits),
            hits_max: applied_field::<i32>(v.hits_max, u.hits_max),
            user: applied_field::<String>(v.user, u.user),
            disabled: applied_field::<bool>(v.disabled, u.disabled),
            store: applied_field::<Store>(v.store, u.store),
            capacity_resource: applied_field::<Store>(v.capacity_resource, u.capacity_resource),
            cooldown_time: applied_field::<i32>(v.cooldown_time, u.cooldown_time),
            action_log: applied_field::<StructureLabActions>(v.action_log, u.action_log),
            notify_when_attacked: applied_field::<bool>(v.notify_when_attacked, u.notify_when_attacked),
        }
    }

    open spec fn created(u: StructureLabUpdateView) -> Option<StructureLabView> {
        if created_field::<String>(u.id) is Some
            && created_field::<RoomName>(u.room) is Some
            && created_field::<u32>(u.x) is Some
            && created_field::<u32>(u.y) is Some
            && created_field::<i32>(u.hits) is Some
            && created_field::<i32>(u.hits_max) is Some
            && created_field::<String>(u.user) is Some
            && created_field::<bool>(u.disabled) is Some
            && created_field::<Store>(u.store) is Some
            && created_field::<Store>(u.capacity_resource) is Some
            && created_field::<i32>(u.cooldown_time) is Some
            && created_field::<StructureLabActions>(u.action_log) is Some
            && created_field::<bool>(u.notify_when_attacked) is Some {
            Some(
                StructureLabView {
                    id: created_field::<String>(u.id)->0,
                    room: created_field::<RoomName>(u.room)->0,
                    x: created_field::<u32>(u.x)->0,
                    y: created_field::<u32>(u.y)->0,
                    hits: created_field::<i32>(u.hits)->0,
                    hits_max: created_field::<i32>(u.hits_max)->0,
                    user: created_field::<String>(u.user)->0,
                    disabled: created_field::<bool>(u.disabled)->0,
                    store: created_field::<Store>(u.store)->0,
                    capacity_resource: created_field::<Store>(u.capacity_resource)->0,
                    cooldown_time: created_field::<i32>(u.cooldown_time)->0,
                    action_log: created_field::<StructureLabActions>(u.action_log)->0,
                    notify_when_attacked: created_field::<bool>(u.notify_when_attacked)->0,
                },
            )
        } else {
            None
        }
    }

    fn apply_update(&mut self, update: StructureLabUpdate) {
        let StructureLabUpdate { id, room, x, y, hits, hits_max, user, disabled, store, capacity_resource, cooldown_time, action_log, notify_when_attacked } = update;
        apply_field(&mut self.id, id);
        apply_field(&mut self.room, room);
        apply_field(&mut self.x, x);
        apply_field(&mut self.y, y);
        apply_field(&mut self.hits, hits);
        apply_field(&mut self.hits_max, hits_max);
        apply_field(&mut self.user, user);
        apply_field(&mut self.disabled, disabled);
        apply_field(&mut self.store, store);
        apply_field(&mut self.capacity_resource, capacity_resource);
        apply_field(&mut self.cooldown_time, cooldown_time);
        apply_field(&mut self.action_log, action_log);
        apply_field(&mut self.notify_when_attacked, notify_when_attacked);
    }

    fn create_from_update(update: StructureLabUpdate) -> (r: Option<StructureLab>) {
        let StructureLabUpdate { id, room, x, y, hits, hits_max, user, disabled, store, capacity_resource, cooldown_time, action_log, notify_when_attacked } = update;
        let id = match id {
            Some(u) => match <String as Updatable>::create_from_update(u) {
                Some(v) => v,
                None => return None,
            },
            None => return None,
        };
        let room = match room {
            Some(u) => match <RoomName as Updatable>::create_from_update(u) {
                Some(v) => v,
                None => return None,
            },
            None => return None,
        };
        let x = match x {
            Some(u) => match <u32 as Updatable>::create_from_update(u) {
                Some(v) => v,
                None => return None,
            },
            None => return None,
        };
        let y = match y {
            Some(u) => match <u32 as Updatable>::create_from_update(u) {
                Some(v) => v,
                None => return None,
            },
            None => return None,
        };
        let hits = match hits {
            Some(u) => match <i32 as Updatable>::create_from_update(u) {
                Some(v) => v,
                None => return None,
            },
            None => return None,
        };
        let hits_max = match hits_max {
            Some(u) => match <i32 as Updatable>::create_from_update(u) {
                Some(v) => v,
                None => return None,
            },
            None => return None,
        };
        let user = match user {
            Some(u) => match <String as Updatable>::create_from_update(u) {
                Some(v) => v,
                None => return None,
            },
            None => return None,
        };
        let disabled = match disabled {
            Some(u) => match <bool as Updatable>::create_from_update(u) {
                Some(v) => v,
                None => return None,
            },
            None => return None,
        };
        let store = match store {
            Some(u) => match <Store as Updatable>::create_from_update(u) {
                Some(v) => v,
                None => return None,
            },
            None => return None,
        };
        let capacity_resource = match capacity_resource {
            Some(u) => match <Store as Updatable>::create_from_update(u) {
                Some(v) => v,
                None => return None,
            },
            None => return None,
        };
        let cooldown_time = match cooldown_time {
            Some(u) => match <i32 as Updatable>::create_from_update(u) {
                Some(v) => v,
                None => return None,
            },
            None => return None,
        };
        let action_log = match action_log {
            Some(u) => match <StructureLabActions as Updatable>::create_from_update(u) {
                Some(v) => v,
                None => return None,
            },
            None => return None,
        };
        let notify_when_attacked = match notify_when_attacked {
            Some(u) => match <bool as Updatable>::create_from_update(u) {
                Some(v) => v,
                None => return None,
            },
            None => return None,
        };
        Some(StructureLab { id, room, x, y, hits, hits_max, user, disabled, store, capacity_resource, cooldown_time, action_log, notify_when_attacked })
    }
}

impl StructureLab {
    /// Updates this structure with all values present in the given update.
    pub fn update(&mut self, update: StructureLabUpdate)
        ensures
            final(self).deep_view() == <StructureLab as Updatable>::applied(
                old(self).deep_view(),
                update.deep_view(),
            ),
    {
        self.apply_update(update);
    }
}

/// A struct describing the source labs for a lab performing a mineral reaction.
#[derive(Clone, Debug, PartialEq)]
pub struct LabActionTarget {
    /// The x position of the first source lab.
    pub x1: u32,
    /// The y position of the first source lab.
    pub y1: u32,
    /// The x position of the second source lab.
    pub x2: u32,
    /// The y position of the second source lab.
    pub y2: u32,
}

/// The abstract value of a `LabActionTarget`.
pub struct LabActionTargetView {
    pub x1: u32,
    pub y1: u32,
    pub x2: u32,
    pub y2: u32,
}

/// The update structure for a `LabActionTarget`.
///
/// Each field that is present replaces or updates the field of the same name.
#[derive(Clone, Debug, Default)]
pub struct LabActionTargetUpdate {
    pub x1: Option<u32>,
    pub y1: Option<u32>,
    pub x2: Option<u32>,
    pub y2: Option<u32>,
}

/// The abstract value of a `LabActionTargetUpdate`.
pub struct LabActionTargetUpdateView {
    pub x1: Option<u32>,
    pub y1: Option<u32>,
    pub x2: Option<u32>,
    pub y2: Option<u32>,
}

impl DeepView for LabActionTarget {
    type V = LabActionTargetView;

    open spec fn deep_view(&self) -> LabActionTargetView {
        LabActionTargetView {
            x1: self.x1.deep_view(),
            y1: self.y1.deep_view(),
            x2: self.x2.deep_view(),
            y2: self.y2.deep_view(),
        }
    }
}

impl DeepView for LabActionTargetUpdate {
    type V = LabActionTargetUpdateView;

    open spec fn deep_view(&self) -> LabActionTargetUpdateView {
        LabActionTargetUpdateView {
            x1: self.x1.deep_view(),
            y1: self.y1.deep_view(),
            x2: self.x2.deep_view(),
            y2: self.y2.deep_view(),
        }
    }
}

impl Updatable for LabActionTarget {
    type Update = LabActionTargetUpdate;

    open spec fn applied(v: LabActionTargetView, u: LabActionTargetUpdateView) -> LabActionTargetView {
        LabActionTargetView {
            x1: applied_field::<u32>(v.x1, u.x1),
            y1: applied_field::<u32>(v.y1, u.y1),
            x2: applied_field::<u32>(v.x2, u.x2),
            y2: applied_field::<u32>(v.y2, u.y2),
        }
    }

    open spec fn created(u: LabActionTargetUpdateView) -> Option<LabActionTargetView> {
        if created_field::<u32>(u.x1) is Some
            && created_field::<u32>(u.y1) is Some
            && created_field::<u32>(u.x2) is Some
            && created_field::<u32>(u.y2) is Some {
            Some(
                LabActionTargetView {
                    x1: created_field::<u32>(u.x1)->0,
                    y1: created_field::<u32>(u.y1)->0,
                    x2: created_field::<u32>(u.x2)->0,
                    y2: created_field::<u32>(u.y2)->0,
                },
            )
        } else {
            None
        }
    }

    fn apply_update(&mut self, update: LabActionTargetUpdate) {
        let LabActionTargetUpdate { x1, y1, x2, y2 } = update;
        apply_field(&mut self.x1, x1);
        apply_field(&mut self.y1, y1);
        apply_field(&mut self.x2, x2);
        apply_field(&mut self.y2, y2);
    }

    fn create_from_update(update: LabActionTargetUpdate) -> (r: Option<LabActionTarget>) {
        let LabActionTargetUpdate { x1, y1, x2, y2 } = update;
        let x1 = match x1 {
            Some(u) => match <u32 as Updatable>::create_from_update(u) {
                Some(v) => v,
                None => return None,
            },
            None => return None,
        };
        let y1 = match y1 {
            Some(u) => match <u32 as Updatable>::create_from_update(u) {
                Some(v) => v,
                None => return None,
            },
            None => return None,
        };
        let x2 = match x2 {
            Some(u) => match <u32 as Updatable>::create_from_update(u) {
                Some(v) => v,
                None => return None,
            },
            None => return None,
        };
        let y2 = match y2 {
            Some(u) => match <u32 as Updatable>::create_from_update(u) {
                Some(v) => v,
                None => return None,
            },
            None => return None,
        };
        Some(LabActionTarget { x1, y1, x2, y2 })
    }
}

impl LabActionTarget {
    /// Updates this structure with all values present in the given update.
    pub fn update(&mut self, update: LabActionTargetUpdate)
        ensures
            final(self).deep_view() == <LabActionTarget as Updatable>::applied(
                old(self).deep_view(),
                update.deep_view(),
            ),
    {
        self.apply_update(update);
    }
}

/// A struct describing a lab's actions.
#[derive(Clone, Debug, PartialEq)]
pub struct StructureLabActions {
    /// The two source labs that provided minerals for the reaction that was run last tick.
    pub run_reaction: Option<LabActionTarget>,
}

/// The abstract value of a `StructureLabActions`.
pub struct StructureLabActionsView {
    pub run_reaction: Option<LabActionTargetView>,
}

/// The update structure for a `StructureLabActions`.
///
/// Each field that is present replaces or updates the field of the same name.
#[derive(Clone, Debug, Default)]
pub struct StructureLabActionsUpdate {
    pub run_reaction: Option<Option<LabActionTargetUpdate>>,
}

/// The abstract value of a `StructureLabActionsUpdate`.
pub struct StructureLabActionsUpdateView {
    pub run_reaction: Option<Option<LabActionTargetUpdateView>>,
}

impl DeepView for StructureLabActions {
    type V = StructureLabActionsView;

    open spec fn deep_view(&self) -> StructureLabActionsView {
        StructureLabActionsView {
            run_reaction: self.run_reaction.deep_view(),
        }
    }
}

impl DeepView for StructureLabActionsUpdate {
    type V = StructureLabActionsUpdateView;

    open spec fn deep_view(&self) -> StructureLabActionsUpdateView {
        StructureLabActionsUpdateView {
            run_reaction: self.run_reaction.deep_view(),
        }
    }
}

impl Updatable for StructureLabActions {
    type Update = StructureLabActionsUpdate;

    open spec fn applied(v: StructureLabActionsView, u: StructureLabActionsUpdateView) -> StructureLabActionsView {
        StructureLabActionsView {
            run_reaction: applied_field::<Option<LabActionTarget>>(v.run_reaction, u.run_reaction),
        }
    }

    open spec fn created(u: StructureLabActionsUpdateView) -> Option<StructureLabActionsView> {
        if created_field::<Option<LabActionTarget>>(u.run_reaction) is Some {
            Some(
                StructureLabActionsView {
                    run_reaction: created_field::<Option<LabActionTarget>>(u.run_reaction)->0,
                },
            )
        } else {
            None
        }
    }

    fn apply_update(&mut self, update: StructureLabActionsUpdate) {
        let StructureLabActionsUpdate { run_reaction } = update;
        apply_field(&mut self.run_reaction, run_reaction);
    }

    fn create_from_update(update: StructureLabActionsUpdate) -> (r: Option<StructureLabActions>) {
        let StructureLabActionsUpdate { run_reaction } = update;
        let run_reaction = match run_reaction {
            Some(u) => match <Option<LabActionTarget> as Updatable>::create_from_update(u) {
                Some(v) => v,
                None => return None,
            },
            None => return None,
        };
        Some(StructureLabActions { run_reaction })
    }
}

impl StructureLabActions {
    /// Updates this structure with all values present in the given update.
    pub fn update(&mut self, update: StructureLabActionsUpdate)
        ensures
            final(self).deep_view() == <StructureLabActions as Updatable>::applied(
                old(self).deep_view(),
                update.deep_view(),
            ),
    {
        self.apply_update(update);
    }
}

} // verus!
