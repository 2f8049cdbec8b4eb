//! `StructureLink` data description.
use vstd::prelude::*;

use crate::resources::ResourceType;
use crate::room_name::RoomName;
use crate::store::{Store, StoreUpdate};
use crate::updatable::{Updatable, apply_field, applied_field, created_field};
use super::shared::{ActionLogTarget, ActionLogTargetUpdate, ActionLogTargetUpdateView, ActionLogTargetView};

verus! {

/// A tower structure - a structure that can be filled with energy, and then attack, heal and
/// repair things within the same room using that energy.
#[derive(Clone, Debug, PartialEq)]
pub struct StructureTower {
    /// Unique 'id' identifier for all game objects on a server.
    pub id: String,
    /// Room object is in.
    pub room: RoomName,
    /// X position within the room (0-50).
    pub x: u32,
    /// Y position within the room (0-50).
    pub y: u32,
    /// The current number of hit-points this structure has.
    pub hits: i32,
    /// The maximum number of hit-points this structure has.
    pub hits_max: i32,
    /// The user ID of the owner of this structure.
    pub user: String,
    /// Whether or not this structure is non-functional due to a degraded controller.
    pub disabled: bool,
    /// The current amount of resources held in this structure.
    pub store: Store,
    /// The maximum amount of resources that can be held in this structure.
    pub store_capacity_resource: Store,
    /// Whether or not an attack on this structure will send an email to the owner automatically.
    pub notify_when_attacked: bool,
    /// A record of all actions this structure performed last tick.
    pub action_log: StructureTowerActions,
}

/// The abstract value of a `StructureTower`.
pub struct StructureTowerView {
    pub id: Seq<char>,
    pub room: RoomName,
    pub x: u32,
    pub y: u32,
    pub hits: i32,
    pub hits_max: i32,
    pub user: Seq<char>,
    pub disabled: bool,
    pub store: Map<ResourceType, i32>,
    pub store_capacity_resource: Map<ResourceType, i32>,
    pub notify_when_attacked: bool,
    pub action_log: StructureTowerActionsView,
}

/// The update structure for a `StructureTower`.
///
/// Each field that is present replaces or updates the field of the same name.
#[derive(Clone, Debug, Default)]
pub struct StructureTowerUpdate {
    pub id: Option<String>,
    pub room: Option<RoomName>,
    pub x: Option<u32>,
    pub y: Option<u32>,
    pub hits: Option<i32>,
    pub hits_max: Option<i32>,
    pub user: Option<String>,
    pub disabled: Option<bool>,
    pub store: Option<StoreUpdate>,
    pub store_capacity_resource: Option<StoreUpdate>,
    pub notify_when_attacked: Option<bool>,
    pub action_log: Option<StructureTowerActionsUpdate>,
}

/// The abstract value of a `StructureTowerUpdate`.
pub struct StructureTowerUpdateView {
    pub id: Option<Seq<char>>,
    pub room: Option<RoomName>,
    pub x: Option<u32>,
    pub y: Option<u32>,
    pub hits: Option<i32>,
    pub hits_max: Option<i32>,
    pub user: Option<Seq<char>>,
    pub disabled: Option<bool>,
    pub store: Option<Map<ResourceType, i32>>,
    pub store_capacity_resource: Option<Map<ResourceType, i32>>,
    pub notify_when_attacked: Option<bool>,
    pub action_log: Option<StructureTowerActionsUpdateView>,
}

impl DeepView for StructureTower {
    type V = StructureTowerView;

    open spec fn deep_view(&self) -> StructureTowerView {
        StructureTowerView {
            id: self.id.deep_view(),
            room: self.room.deep_view(),
            x: self.x.deep_view(),
            y: self.y.deep_view(),
            hits: self.hits.deep_view(),
            hits_max: self.hits_max.deep_view(),
            user: self.user.deep_view(),
            disabled: self.disabled.deep_view(),
            store: self.store.deep_view(),
            store_capacity_resource: self.store_capacity_resource.deep_view(),
            notify_when_attacked: self.notify_when_attacked.deep_view(),
            action_log: self.action_log.deep_view(),
        }
    }
}

impl DeepView for StructureTowerUpdate {
    type V = StructureTowerUpdateView;

    open spec fn deep_view(&self) -> StructureTowerUpdateView {
        StructureTowerUpdateView {
            id: self.id.deep_view(),
            room: self.room.deep_view(),
            x: self.x.deep_view(),
            y: self.y.deep_view(),
            hits: self.hits.deep_view(),
            hits_max: self.hits_max.deep_view(),
            user: self.user.deep_view(),
            disabled: self.disabled.deep_view(),
            store: self.store.deep_view(),
            store_capacity_resource: self.store_capacity_resource.deep_view(),
            notify_when_attacked: self.notify_when_attacked.deep_view(),
            action_log: self.action_log.deep_view(),
        }
    }
}

impl Updatable for StructureTower {
    type Update = StructureTowerUpdate;

    open spec fn applied(v: StructureTowerView, u: StructureTowerUpdateView) -> StructureTowerView {
        StructureTowerView {
            id: applied_field::<String>(v.id, u.id),
            room: applied_field::<RoomName>(v.room, u.room),
            x: applied_field::<u32>(v.x, u.x),
            y: applied_field::<u32>(v.y, u.y),
            hits: applied_field::<i32>(v.hits, u.hits),
            hits_max: applied_field::<i32>(v.hits_max, u.hits_max),
            user: applied_field::<String>(v.user, u.user),
            disabled: applied_field::<bool>(v.disabled, u.disabled),
            store: applied_field::<Store>(v.store, u.store),
            store_capacity_resource: applied_field::<Store>(v.store_capacity_resource, u.store_capacity_resource),
            notify_when_attacked: applied_field::<bool>(v.notify_when_attacked, u.notify_when_attacked),
            action_log: applied_field::<StructureTowerActions>(v.action_log, u.action_log),
        }
    }

    open spec fn created(u: StructureTowerUpdateView) -> Option<StructureTowerView> {
        if created_field::<String>(u.id) is Some
            && created_field::<RoomName>(u.room) is Some
            && created_field::<u32>(u.x) is Some
            && created_field::<u32>(u.y) is Some
            && created_field::<i32>(u.hits) is Some
            && created_field::<i32>(u.hits_max) is Some
            && created_field::<String>(u.user) is Some
            && created_field::<bool>(u.disabled) is Some
            && created_field::<Store>(u.store) is Some
            && created_field::<Store>(u.store_capacity_resource) is Some
            && created_field::<bool>(u.notify_when_attacked) is Some
            && created_field::<StructureTowerActions>(u.action_log) is Some {
            Some(
                StructureTowerView {
                    id: created_field::<String>(u.id)->0,
                    room: created_field::<RoomName>(u.room)->0,
                    x: created_field::<u32>(u.x)->0,
                    y: created_field::<u32>(u.y)->0,
                    hits: created_field::<i32>(u.hits)->0,
                    hits_max: created_field::<i32>(u.hits_max)->0,
                    user: created_field::<String>(u.user)->0,
                    disabled: created_field::<bool>(u.disabled)->0,
                    store: created_field::<Store>(u.store)->0,
                    store_capacity_resource: created_field::<Store>(u.store_capacity_resource)->0,
                    notify_when_attacked: created_field::<bool>(u.notify_when_attacked)->0,
                    action_log: created_field::<StructureTowerActions>(u.action_log)->0,
                },
            )
        } else {
            None
        }
    }

    fn apply_update(&mut self, update: StructureTowerUpdate) {
        let StructureTowerUpdate { id, room, x, y, hits, hits_max, user, disabled, store, store_capacity_resource, notify_when_attacked, action_log } = update;
        apply_field(&mut self.id, id);
        apply_field(&mut self.room, room);
        apply_field(&mut self.x, x);
        apply_field(&mut self.y, y);
        apply_field(&mut self.hits, hits);
        apply_field(&mut self.hits_max, hits_max);
        apply_field(&mut self.user, user);
        apply_field(&mut self.disabled, disabled);
        apply_field(&mut self.store, store);
        apply_field(&mut self.store_capacity_resource, store_capacity_resource);
        apply_field(&mut self.notify_when_attacked, notify_when_attacked);
        apply_field(&mut self.action_log, action_log);
    }

    fn create_from_update(update: StructureTowerUpdate) -> (r: Option<StructureTower>) {
        let StructureTowerUpdate { id, room, x, y, hits, hits_max, user, disabled, store, store_capacity_resource, notify_when_attacked, action_log } = update;
        let id = match id {
            Some(u) => match <String as Updatable>::create_from_update(u) {
                Some(v) => v,
                None => return None,
            },
            None => return None,
        };
        let room = match room {
            Some(u) => match <RoomName as Updatable>::create_from_update(u) {
                Some(v) => v,
                None => return None,
            },
            None => return None,
        };
        let x = match x {
            Some(u) => match <u32 as Updatable>::create_from_update(u) {
                Some(v) => v,
                None => return None,
            },
            None => return None,
        };
        let y = match y {
            Some(u) => match <u32 as Updatable>::create_from_update(u) {
                Some(v) => v,
                None => return None,
            },
            None => return None,
        };
        let hits = match hits {
            Some(u) => match <i32 as Updatable>::create_from_update(u) {
                Some(v) => v,
                None => return None,
            },
            None => return None,
        };
        let hits_max = match hits_max {
            Some(u) => match <i32 as Updatable>::create_from_update(u) {
                Some(v) => v,
                None => return None,
            },
            None => return None,
        };
        let user = match user {
            Some(u) => match <String as Updatable>::create_from_update(u) {
                Some(v) => v,
                None => return None,
            },
            None => return None,
        };
        let disabled = match disabled {
            Some(u) => match <bool as Updatable>::create_from_update(u) {
                Some(v) => v,
                None => return None,
            },
            None => return None,
        };
        let store = match store {
            Some(u) => match <Store as Updatable>::create_from_update(u) {
                Some(v) => v,
                None => return None,
            },
            None => return None,
        };
        let store_capacity_resource = match store_capacity_resource {
            Some(u) => match <Store as Updatable>::create_from_update(u) {
                Some(v) => v,
                None => return None,
            },
            None => return None,
        };
        let notify_when_attacked = match notify_when_attacked {
            Some(u) => match <bool as Updatable>::create_from_update(u) {
                Some(v) => v,
                None => return None,
            },
            None => return None,
        };
        let action_log = match action_log {
            Some(u) => match <StructureTowerActions as Updatable>::create_from_update(u) {
                Some(v) => v,
                None => return None,
            },
            None => return None,
        };
        Some(StructureTower { id, room, x, y, hits, hits_max, user, disabled, store, store_capacity_resource, notify_when_attacked, action_log })
    }
}

impl StructureTower {
    /// Updates this structure with all values present in the given update.
    pub fn update(&mut self, update: StructureTowerUpdate)
        ensures
            final(self).deep_view() == <StructureTower as Updatable>::applied(
                old(self).deep_view(),
                update.deep_view(),
            ),
    {
        self.apply_update(update);
    }
}

/// A struct describing a tower's actions.
#[derive(Clone, Debug, PartialEq)]
pub struct StructureTowerActions {
    /// Where this tower attacked last tick.
    pub attack: Option<ActionLogTarget>,
    /// Where this tower healed last tick.
    pub heal: Option<ActionLogTarget>,
    /// Where this tower repaired last tick.
    pub repair: Option<ActionLogTarget>,
}

/// The abstract value of a `StructureTowerActions`.
pub struct StructureTowerActionsView {
    pub attack: Option<ActionLogTargetView>,
    pub heal: Option<ActionLogTargetView>,
    pub repair: Option<ActionLogTargetView>,
}

/// The update structure for a `StructureTowerActions`.
///
/// Each field that is present replaces or updates the field of the same name.
#[derive(Clone, Debug, Default)]
pub struct StructureTowerActionsUpdate {
    pub attack: Option<Option<ActionLogTargetUpdate>>,
    pub heal: Option<Option<ActionLogTargetUpdate>>,
    pub repair: Option<Option<ActionLogTargetUpdate>>,
}

/// The abstract value of a `StructureTowerActionsUpdate`.
pub struct StructureTowerActionsUpdateView {
    pub attack: Option<Option<ActionLogTargetUpdateView>>,
    pub heal: Option<Option<ActionLogTargetUpdateView>>,
    pub repair: Option<Option<ActionLogTargetUpdateView>>,
}

impl DeepView for StructureTowerActions {
    type V = StructureTowerActionsView;

    open spec fn deep_view(&self) -> StructureTowerActionsView {
        StructureTowerActionsView {
            attack: self.attack.deep_view(),
            heal: self.heal.deep_view(),
            repair: self.repair.deep_view(),
        }
    }
}

impl DeepView for StructureTowerActionsUpdate {
    type V = StructureTowerActionsUpdateView;

    open spec fn deep_view(&self) -> StructureTowerActionsUpdateView {
        StructureTowerActionsUpdateView {
            attack: self.attack.deep_view(),
            heal: self.heal.deep_view(),
            repair: self.repair.deep_view(),
        }
    }
}

impl Updatable for StructureTowerActions {
    type Update = StructureTowerActionsUpdate;

    open spec fn applied(v: StructureTowerActionsView, u: StructureTowerActionsUpdateView) -> StructureTowerActionsView {
        StructureTowerActionsView {
            attack: applied_field::<Option<ActionLogTarget>>(v.attack, u.attack),
            heal: applied_field::<Option<ActionLogTarget>>(v.heal, u.heal),
            repair: applied_field::<Option<ActionLogTarget>>(v.repair, u.repair),
        }
    }

    open spec fn created(u: StructureTowerActionsUpdateView) -> Option<StructureTowerActionsView> {
        if created_field::<Option<ActionLogTarget>>(u.attack) is Some
            && created_field::<Option<ActionLogTarget>>(u.heal) is Some
            && created_field::<Option<ActionLogTarget>>(u.repair) is Some {
            Some(
                StructureTowerActionsView {
                    attack: created_field::<Option<ActionLogTarget>>(u.attack)->0,
                    heal: created_field::<Option<ActionLogTarget>>(u.heal)->0,
                    repair: created_field::<Option<ActionLogTarget>>(u.repair)->0,
                },
            )
        } else {
            None
        }
    }

    fn apply_update(&mut self, update: StructureTowerActionsUpdate) {
        let StructureTowerActionsUpdate { attack, heal, repair } = update;
        apply_field(&mut self.attack, attack);
        apply_field(&mut self.heal, heal);
        apply_field(&mut self.repair, repair);
    }

    fn create_from_update(update: StructureTowerActionsUpdate) -> (r: Option<StructureTowerActions>) {
        let StructureTowerActionsUpdate { attack, heal, repair } = update;
        let attack = match attack {
            Some(u) => match <Option<ActionLogTarget> as Updatable>::create_from_update(u) {
                Some(v) => v,
                None => return None,
            },
            None => return None,
        };
        let heal = match heal {
            Some(u) => match <Option<ActionLogTarget> as Updatable>::create_from_update(u) {
                Some(v) => v,
                None => return None,
            },
            None => return None,
        };
        let repair = match repair {
            Some(u) => match <Option<ActionLogTarget> as Updatable>::create_from_update(u) {
                Some(v) => v,
                None => return None,
            },
            None => return None,
        };
        Some(StructureTowerActions { attack, heal, repair })
    }
}

impl StructureTowerActions {
    /// Updates this structure with all values present in the given update.
    pub fn update(&mut self, update: StructureTowerActionsUpdate)
        ensures
            final(self).deep_view() == <StructureTowerActions as Updatable>::applied(
                old(self).deep_view(),
                update.deep_view(),
            ),
    {
        self.apply_update(update);
    }
}

} // verus!
