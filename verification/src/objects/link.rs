//! `StructureLink` data description.
use vstd::prelude::*;

use crate::resources::ResourceType;
use crate::room_name::RoomName;
use crate::store::{Store, StoreUpdate};
use crate::updatable::{Updatable, apply_field, applied_field, created_field};
use super::shared::{ActionLogTarget, ActionLogTargetUpdate, ActionLogTargetUpdateView, ActionLogTargetView};

verus! {

/// A link structure - a structure that can be filled with energy, then instantly send energy to other links
/// in the same room.
#[derive(Clone, Debug, PartialEq)]
pub struct StructureLink {
    /// Unique 'id' identifier for all game objects on a server.
    pub id: String,
    /// Room object is in.
    pub room: RoomName,
    /// X position within the room (0-50).
    pub x: u32,
    /// Y position within the room (0-50).
    pub y: u32,
    /// The current number of hit-points this structure has.
    pub hits: i32,
    /// The maximum number of hit-points this structure has.
    pub hits_max: i32,
    /// The user ID of the owner of this structure.
    pub user: String,
    /// Whether or not this structure is non-functional due to a degraded controller.
    pub disabled: bool,
    /// The resources and amounts of each resource some game object holds.
    pub store: Store,
    /// The maximum amount of each resource that can be held in this structure.
    pub capacity_resource: Store,
    /// The number of ticks till this link can be used to send energy again.
    pub cooldown: i32,
    /// A record of all actions this structure performed last tick.
    pub action_log: StructureLinkActions,
    /// Whether or not an attack on this structure will send an email to the owner automatically.
    pub notify_when_attacked: bool,
}

/// The abstract value of a `StructureLink`.
pub struct StructureLinkView {
    pub id: Seq<char>,
    pub room: RoomName,
    pub x: u32,
    pub y: u32,
    pub hits: i32,
    pub hits_max: i32,
    pub user: Seq<char>,
    pub disabled: bool,
    pub store: Map<ResourceType, i32>,
    pub capacity_resource: Map<ResourceType, i32>,
    pub cooldown: i32,
    pub action_log: StructureLinkActionsView,
    pub notify_when_attacked: bool,
}

/// The update structure for a `StructureLink`.
///
/// Each field that is present replaces or updates the field of the same name.
#[derive(Clone, Debug, Default)]
pub struct StructureLinkUpdate {
    pub id: Option<String>,
    pub room: Option<RoomName>,
    pub x: Option<u32>,
    pub y: Option<u32>,
    pub hits: Option<i32>,
    pub hits_max: Option<i32>,
    pub user: Option<String>,
    pub disabled: Option<bool>,
    pub store: Option<StoreUpdate>,
    pub capacity_resource: Option<StoreUpdate>,
    pub cooldown: Option<i32>,
    pub action_log: Option<StructureLinkActionsUpdate>,
    pub notify_when_attacked: Option<bool>,
}

/// The abstract value of a `StructureLinkUpdate`.
pub struct StructureLinkUpdateView {
    pub id: Option<Seq<char>>,
    pub room: Option<RoomName>,
    pub x: Option<u32>,
    pub y: Option<u32>,
    pub hits: Option<i32>,
    pub hits_max: Option<i32>,
    pub user: Option<Seq<char>>,
    pub disabled: Option<bool>,
    pub store: Option<Map<ResourceType, i32>>,
    pub capacity_resource: Option<Map<ResourceType, i32>>,
    pub cooldown: Option<i32>,
    pub action_log: Option<StructureLinkActionsUpdateView>,
    pub notify_when_attacked: Option<bool>,
}

impl DeepView for StructureLink {
    type V = StructureLinkView;

    open spec fn deep_view(&self) -> StructureLinkView {
        StructureLinkView {
            id: self.id.deep_view(),
            room: self.room.deep_view(),
            x: self.x.deep_view(),
            y: self.y.deep_view(),
            hits: self.hits.deep_view(),
            hits_max: self.hits_max.deep_view(),
            user: self.user.deep_view(),
            disabled: self.disabled.deep_view(),
            store: self.store.deep_view(),
            capacity_resource: self.capacity_resource.deep_view(),
            cooldown: self.cooldown.deep_view(),
            action_log: self.action_log.deep_view(),
            notify_when_attacked: self.notify_when_attacked.deep_view(),
        }
    }
}

impl DeepView for StructureLinkUpdate {
    type V = StructureLinkUpdateView;

    open spec fn deep_view(&self) -> StructureLinkUpdateView {
        StructureLinkUpdateView {
            id: self.id.deep_view(),
            room: self.room.deep_view(),
            x: self.x.deep_view(),
            y: self.y.deep_view(),
            hits: self.hits.deep_view(),
            hits_max: self.hits_max.deep_view(),
            user: self.user.deep_view(),
            disabled: self.disabled.deep_view(),
            store: self.store.deep_view(),
            capacity_resource: self.capacity_resource.deep_view(),
            cooldown: self.cooldown.deep_view(),
            action_log: self.action_log.deep_view(),
            notify_when_attacked: self.notify_when_attacked.deep_view(),
        }
    }
}

impl Updatable for StructureLink {
    type Update = StructureLinkUpdate;

    open spec fn applied(v: StructureLinkView, u: StructureLinkUpdateView) -> StructureLinkView {
        StructureLinkView {
            id: applied_field::<String>(v.id, u.id),
            room: applied_field::<RoomName>(v.room, u.room),
            x: applied_field::<u32>(v.x, u.x),
            y: applied_field::<u32>(v.y, u.y),
            hits: applied_field::<i32>(v.hits, u.hits),
            hits_max: applied_field::<i32>(v.hits_max, u.hits_max),
            user: applied_field::<String>(v.user, u.user),
            disabled: applied_field::<bool>(v.disabled, u.disabled),
            store: applied_field::<Store>(v.store, u.store),
            capacity_resource: applied_field::<Store>(v.capacity_resource, u.capacity_resource),
            cooldown: applied_field::<i32>(v.cooldown, u.cooldown),
            action_log: applied_field::<StructureLinkActions>(v.action_log, u.action_log),
            notify_when_attacked: applied_field::<bool>(v.notify_when_attacked, u.notify_when_attacked),
        }
    }

    open spec fn created(u: StructureLinkUpdateView) -> Option<StructureLinkView> {
        if created_field::<String>(u.id) is Some
            && created_field::<RoomName>(u.room) is Some
            && created_field::<u32>(u.x) is Some
            && created_field::<u32>(u.y) is Some
            && created_field::<i32>(u.hits) is Some
            && created_field::<i32>(u.hits_max) is Some
            && created_field::<String>(u.user) is Some
            && created_field::<bool>(u.disabled) is Some
            && created_field::<Store>(u.store) is Some
            && created_field::<Store>(u.capacity_resource) is Some
            && created_field::<i32>(u.cooldown) is Some
            && created_field::<StructureLinkActions>(u.action_log) is Some
            && created_field::<bool>(u.notify_when_attacked) is Some {
            Some(
                StructureLinkView {
                    id: created_field::<String>(u.id)->0,
                    room: created_field::<RoomName>(u.room)->0,
                    x: created_field::<u32>(u.x)->0,
                    y: created_field::<u32>(u.y)->0,
                    hits: created_field::<i32>(u.hits)->0,
                    hits_max: created_field::<i32>(u.hits_max)->0,
                    user: created_field::<String>(u.user)->0,
                    disabled: created_field::<bool>(u.disabled)->0,
                    store: created_field::<Store>(u.store)->0,
                    capacity_resource: created_field::<Store>(u.capacity_resource)->0,
                    cooldown: created_field::<i32>(u.cooldown)->0,
                    action_log: created_field::<StructureLinkActions>(u.action_log)->0,
                    notify_when_attacked: created_field::<bool>(u.notify_when_attacked)->0,
                },
            )
        } else {
            None
        }
    }

    fn apply_update(&mut self, update: StructureLinkUpdate) {
        let StructureLinkUpdate { id, room, x, y, hits, hits_max, user, disabled, store, capacity_resource, cooldown, action_log, notify_when_attacked } = update;
        apply_field(&mut self.id, id);
        apply_field(&mut self.room, room);
        apply_field(&mut self.x, x);
        apply_field(&mut self.y, y);
        apply_field(&mut self.hits, hits);
        apply_field(&mut self.hits_max, hits_max);
        apply_field(&mut self.user, user);
        apply_field(&mut self.disabled, disabled);
        apply_field(&mut self.store, store);
        apply_field(&mut self.capacity_resource, capacity_resource);
        apply_field(&mut self.cooldown, cooldown);
        apply_field(&mut self.action_log, action_log);
        apply_field(&mut self.notify_when_attacked, notify_when_attacked);
    }

    fn create_from_update(update: StructureLinkUpdate) -> (r: Option<StructureLink>) {
        let StructureLinkUpdate { id, room, x, y, hits, hits_max, user, disabled, store, capacity_resource, cooldown, action_log, notify_when_attacked } = update;
        let id = match id {
            Some(u) => match <String as Updatable>::create_from_update(u) {
                Some(v) => v,
                None => return None,
            },
            None => return None,
        };
        let room = match room {
            Some(u) => match <RoomName as Updatable>::create_from_update(u) {
                Some(v) => v,
                None => return None,
            },
            None => return None,
        };
        let x = match x {
            Some(u) => match <u32 as Updatable>::create_from_update(u) {
                Some(v) => v,
                None => return None,
            },
            None => return None,
        };
        let y = match y {
            Some(u) => match <u32 as Updatable>::create_from_update(u) {
                Some(v) => v,
                None => return None,
            },
            None => return None,
        };
        let hits = match hits {
            Some(u) => match <i32 as Updatable>::create_from_update(u) {
                Some(v) => v,
                None => return None,
            },
            None => return None,
        };
        let hits_max = match hits_max {
            Some(u) => match <i32 as Updatable>::create_from_update(u) {
                Some(v) => v,
                None => return None,
            },
            None => return None,
        };
        let user = match user {
            Some(u) => match <String as Updatable>::create_from_update(u) {
                Some(v) => v,
                None => return None,
            },
            None => return None,
        };
        let disabled = match disabled {
            Some(u) => match <bool as Updatable>::create_from_update(u) {
                Some(v) => v,
                None => return None,
            },
            None => return None,
        };
        let store = match store {
            Some(u) => match <Store as Updatable>::create_from_update(u) {
                Some(v) => v,
                None => return None,
            },
            None => return None,
        };
        let capacity_resource = match capacity_resource {
            Some(u) => match <Store as Updatable>::create_from_update(u) {
                Some(v) => v,
                None => return None,
            },
            None => return None,
        };
        let cooldown = match cooldown {
            Some(u) => match <i32 as Updatable>::create_from_update(u) {
                Some(v) => v,
                None => return None,
            },
            None => return None,
        };
        let action_log = match action_log {
            Some(u) => match <StructureLinkActions as Updatable>::create_from_update(u) {
                Some(v) => v,
                None => return None,
            },
            None => return None,
        };
        let notify_when_attacked = match notify_when_attacked {
            Some(u) => match <bool as Updatable>::create_from_update(u) {
                Some(v) => v,
                None => return None,
            },
            None => return None,
        };
        Some(StructureLink { id, room, x, y, hits, hits_max, user, disabled, store, capacity_resource, cooldown, action_log, notify_when_attacked })
    }
}

impl StructureLink {
    /// Updates this structure with all values present in the given update.
    pub fn update(&mut self, update: StructureLinkUpdate)
        ensures
            final(self).deep_view() == <StructureLink as Updatable>::applied(
                old(self).deep_view(),
                update.deep_view(),
            ),
    {
        self.apply_update(update);
    }
}

/// A struct describing a link's actions.
#[derive(Clone, Debug, PartialEq)]
pub struct StructureLinkActions {
    /// The x,y position the link last transfered energy to.
    pub transfer_energy: Option<ActionLogTarget>,
}

/// The abstract value of a `StructureLinkActions`.
pub struct StructureLinkActionsView {
    pub transfer_energy: Option<ActionLogTargetView>,
}

/// The update structure for StructureLinkActions.
///
/// Each field that is present replaces or updates the field of the same name.
#[derive(Clone, Debug, Default)]
pub struct StructureLinkActionsUpdate {
    pub transfer_energy: Option<Option<ActionLogTargetUpdate>>,
}

/// The abstract value of a `StructureLinkActionsUpdate`.
pub struct StructureLinkActionsUpdateView {
    pub transfer_energy: Option<Option<ActionLogTargetUpdateView>>,
}

impl DeepView for StructureLinkActions {
    type V = StructureLinkActionsView;

    open spec fn deep_view(&self) -> StructureLinkActionsView {
        StructureLinkActionsView {
            transfer_energy: self.transfer_energy.deep_view(),
        }
    }
}

impl DeepView for StructureLinkActionsUpdate {
    type V = StructureLinkActionsUpdateView;

    open spec fn deep_view(&self) -> StructureLinkActionsUpdateView {
        StructureLinkActionsUpdateView {
            transfer_energy: self.transfer_energy.deep_view(),
        }
    }
}

impl Updatable for StructureLinkActions {
    type Update = StructureLinkActionsUpdate;

    open spec fn applied(v: StructureLinkActionsView, u: StructureLinkActionsUpdateView) -> StructureLinkActionsView {
        StructureLinkActionsView {
            transfer_energy: applied_field::<Option<ActionLogTarget>>(v.transfer_energy, u.transfer_energy),
        }
    }

    open spec fn created(u: StructureLinkActionsUpdateView) -> Option<StructureLinkActionsView> {
        if created_field::<Option<ActionLogTarget>>(u.transfer_energy) is Some {
            Some(
                StructureLinkActionsView {
                    transfer_energy: created_field::<Option<ActionLogTarget>>(u.transfer_energy)->0,
                },
            )
        } else {
            None
        }
    }

    fn apply_update(&mut self, update: StructureLinkActionsUpdate) {
        let StructureLinkActionsUpdate { transfer_energy } = update;
        apply_field(&mut self.transfer_energy, transfer_energy);
    }

    fn create_from_update(update: StructureLinkActionsUpdate) -> (r: Option<StructureLinkActions>) {
        let StructureLinkActionsUpdate { transfer_energy } = update;
        let transfer_energy = match transfer_energy {
            Some(u) => match <Option<ActionLogTarget> as Updatable>::create_from_update(u) {
                Some(v) => v,
                None => return None,
            },
            None => return None,
        };
        Some(StructureLinkActions { transfer_energy })
    }
}

impl StructureLinkActions {
    /// Updates this structure with all values present in the given update.
    pub fn update(&mut self, update: StructureLinkActionsUpdate)
        ensures
            final(self).deep_view() == <StructureLinkActions as Updatable>::applied(
                old(self).deep_view(),
                update.deep_view(),
            ),
    {
        self.apply_update(update);
    }
}

} // verus!
