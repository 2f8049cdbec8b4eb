//! `StructureNuker` data description.
use vstd::prelude::*;

use crate::resources::ResourceType;
use crate::room_name::RoomName;
use crate::store::{Store, StoreUpdate};
use crate::updatable::{Updatable, apply_field, applied_field, created_field};

verus! {

/// An nuker structure - a structure which can be loaded with energy and ghodium, and then
/// fired to launch a large impact missile into another nearby room.
#[derive(Clone, Debug, PartialEq)]
pub struct StructureNuker {
    /// Unique 'id' identifier for all game objects on a server.
    pub id: String,
    /// Room object is in.
    pub room: RoomName,
    /// X position within the room (0-50).
    pub x: u32,
    /// Y position within the room (0-50).
    pub y: u32,
    /// The current number of hit-points this structure has.
    pub hits: i32,
    /// The maximum number of hit-points this structure has.
    pub hits_max: i32,
    /// The user ID of the owner of this structure.
    pub user: String,
    /// Whether or not this structure is non-functional due to a degraded controller.
    pub disabled: bool,
    /// The current amount of energy and ghodium held in this structure.
    pub store: Store,
    /// The maximum amount of energy and ghodium that can be held in this structure.
    pub store_capacity_resource: Store,
    /// The game time at which this nuker will next be able to launch a missile.
    pub cooldown_time: u32,
    /// Whether or not an attack on this structure will send an email to the owner automatically.
    pub notify_when_attacked: bool,
}

/// The abstract value of a `StructureNuker`.
pub struct StructureNukerView {
    pub id: Seq<char>,
    pub room: RoomName,
    pub x: u32,
    pub y: u32,
    pub hits: i32,
    pub hits_max: i32,
    pub user: Seq<char>,
    pub disabled: bool,
    pub store: Map<ResourceType, i32>,
    pub store_capacity_resource: Map<ResourceType, i32>,
    pub cooldown_time: u32,
    pub notify_when_attacked: bool,
}

/// The update structure for a `StructureNuker`.
///
/// Each field that is present replaces or updates the field of the same name.
#[derive(Clone, Debug, Default)]
pub struct StructureNukerUpdate {
    pub id: Option<String>,
    pub room: Option<RoomName>,
    pub x: Option<u32>,
    pub y: Option<u32>,
    pub hits: Option<i32>,
    pub hits_max: Option<i32>,
    pub user: Option<String>,
    pub disabled: Option<bool>,
    pub store: Option<StoreUpdate>,
    pub store_capacity_resource: Option<StoreUpdate>,
    pub cooldown_time: Option<u32>,
    pub notify_when_attacked: Option<bool>,
}

/// The abstract value of a `StructureNukerUpdate`.
pub struct StructureNukerUpdateView {
    pub id: Option<Seq<char>>,
    pub room: Option<RoomName>,
    pub x: Option<u32>,
    pub y: Option<u32>,
    pub hits: Option<i32>,
    pub hits_max: Option<i32>,
    pub user: Option<Seq<char>>,
    pub disabled: Option<bool>,
    pub store: Option<Map<ResourceType, i32>>,
    pub store_capacity_resource: Option<Map<ResourceType, i32>>,
    pub cooldown_time: Option<u32>,
    pub notify_when_attacked: Option<bool>,
}

impl DeepView for StructureNuker {
    type V = StructureNukerView;

    open spec fn deep_view(&self) -> StructureNukerView {
        StructureNukerView {
            id: self.id.deep_view(),
            room: self.room.deep_view(),
            x: self.x.deep_view(),
            y: self.y.deep_view(),
            hits: self.hits.deep_view(),
            hits_max: self.hits_max.deep_view(),
            user: self.user.deep_view(),
            disabled: self.disabled.deep_view(),
            store: self.store.deep_view(),
            store_capacity_resource: self.store_capacity_resource.deep_view(),
            cooldown_time: self.cooldown_time.deep_view(),
            notify_when_attacked: self.notify_when_attacked.deep_view(),
        }
    }
}

impl DeepView for StructureNukerUpdate {
    type V = StructureNukerUpdateView;

    open spec fn deep_view(&self) -> StructureNukerUpdateView {
        StructureNukerUpdateView {
            id: self.id.deep_view(),
            room: self.room.deep_view(),
            x: self.x.deep_view(),
            y: self.y.deep_view(),
            hits: self.hits.deep_view(),
            hits_max: self.hits_max.deep_view(),
            user: self.user.deep_view(),
            disabled: self.disabled.deep_view(),
            store: self.store.deep_view(),
            store_capacity_resource: self.store_capacity_resource.deep_view(),
            cooldown_time: self.cooldown_time.deep_view(),
            notify_when_attacked: self.notify_when_attacked.deep_view(),
        }
    }
}

impl Updatable for StructureNuker {
    type Update = StructureNukerUpdate;

    open spec fn applied(v: StructureNukerView, u: StructureNukerUpdateView) -> StructureNukerView {
        StructureNukerView {
            id: applied_field::<String>(v.id, u.id),
            room: applied_field::<RoomName>(v.room, u.room),
            x: applied_field::<u32>(v.x, u.x),
            y: applied_field::<u32>(v.y, u.y),
            hits: applied_field::<i32>(v.hits, u.hits),
            hits_max: applied_field::<i32>(v.hits_max, u.hits_max),
            user: applied_field::<String>(v.user, u.user),
            disabled: applied_field::<bool>(v.disabled, u.disabled),
            store: applied_field::<Store>(v.store, u.store),
            store_capacity_resource: applied_field::<Store>(v.store_capacity_resource, u.store_capacity_resource),
            cooldown_time: applied_field::<u32>(v.cooldown_time, u.cooldown_time),
            notify_when_attacked: applied_field::<bool>(v.notify_when_attacked, u.notify_when_attacked),
        }
    }

    open spec fn created(u: StructureNukerUpdateView) -> Option<StructureNukerView> {
        if created_field::<String>(u.id) is Some
            && created_field::<RoomName>(u.room) is Some
            && created_field::<u32>(u.x) is Some
            && created_field::<u32>(u.y) is Some
            && created_field::<i32>(u.hits) is Some
            && created_field::<i32>(u.hits_max) is Some
            && created_field::<String>(u.user) is Some
            && created_field::<bool>(u.disabled) is Some
            && created_field::<Store>(u.store) is Some
            && created_field::<Store>(u.store_capacity_resource) is Some
            && created_field::<u32>(u.cooldown_time) is Some
            && created_field::<bool>(u.notify_when_attacked) is Some {
            Some(
                StructureNukerView {
                    id: created_field::<String>(u.id)->0,
                    room: created_field::<RoomName>(u.room)->0,
                    x: created_field::<u32>(u.x)->0,
                    y: created_field::<u32>(u.y)->0,
                    hits: created_field::<i32>(u.hits)->0,
                    hits_max: created_field::<i32>(u.hits_max)->0,
                    user: created_field::<String>(u.user)->0,
                    disabled: created_field::<bool>(u.disabled)->0,
                    store: created_field::<Store>(u.store)->0,
                    store_capacity_resource: created_field::<Store>(u.store_capacity_resource)->0,
                    cooldown_time: created_field::<u32>(u.cooldown_time)->0,
                    notify_when_attacked: created_field::<bool>(u.notify_when_attacked)->0,
                },
            )
        } else {
            None
        }
    }

    fn apply_update(&mut self, update: StructureNukerUpdate) {
        let StructureNukerUpdate { id, room, x, y, hits, hits_max, user, disabled, store, store_capacity_resource, cooldown_time, notify_when_attacked } = update;
        apply_field(&mut self.id, id);
        apply_field(&mut self.room, room);
        apply_field(&mut self.x, x);
        apply_field(&mut self.y, y);
        apply_field(&mut self.hits, hits);
        apply_field(&mut self.hits_max, hits_max);
        apply_field(&mut self.user, user);
        apply_field(&mut self.disabled, disabled);
        apply_field(&mut self.store, store);
        apply_field(&mut self.store_capacity_resource, store_capacity_resource);
        apply_field(&mut self.cooldown_time, cooldown_time);
        apply_field(&mut self.notify_when_attacked, notify_when_attacked);
    }

    fn create_from_update(update: StructureNukerUpdate) -> (r: Option<StructureNuker>) {
        let StructureNukerUpdate { id, room, x, y, hits, hits_max, user, disabled, store, store_capacity_resource, cooldown_time, notify_when_attacked } = update;
        let id = match id {
            Some(u) => match <String as Updatable>::create_from_update(u) {
                Some(v) => v,
                None => return None,
            },
            None => return None,
        };
        let room = match room {
            Some(u) => match <RoomName as Updatable>::create_from_update(u) {
                Some(v) => v,
                None => return None,
            },
            None => return None,
        };
        let x = match x {
            Some(u) => match <u32 as Updatable>::create_from_update(u) {
                Some(v) => v,
                None => return None,
            },
            None => return None,
        };
        let y = match y {
            Some(u) => match <u32 as Updatable>::create_from_update(u) {
                Some(v) => v,
                None => return None,
            },
            None => return None,
        };
        let hits = match hits {
            Some(u) => match <i32 as Updatable>::create_from_update(u) {
                Some(v) => v,
                None => return None,
            },
            None => return None,
        };
        let hits_max = match hits_max {
            Some(u) => match <i32 as Updatable>::create_from_update(u) {
                Some(v) => v,
                None => return None,
            },
            None => return None,
        };
        let user = match user {
            Some(u) => match <String as Updatable>::create_from_update(u) {
                Some(v) => v,
                None => return None,
            },
            None => return None,
        };
        let disabled = match disabled {
            Some(u) => match <bool as Updatable>::create_from_update(u) {
                Some(v) => v,
                None => return None,
            },
            None => return None,
        };
        let store = match store {
            Some(u) => match <Store as Updatable>::create_from_update(u) {
                Some(v) => v,
                None => return None,
            },
            None => return None,
        };
        let store_capacity_resource = match store_capacity_resource {
            Some(u) => match <Store as Updatable>::create_from_update(u) {
                Some(v) => v,
                None => return None,
            },
            None => return None,
        };
        let cooldown_time = match cooldown_time {
            Some(u) => match <u32 as Updatable>::create_from_update(u) {
                Some(v) => v,
                None => return None,
            },
            None => return None,
        };
        let notify_when_attacked = match notify_when_attacked {
            Some(u) => match <bool as Updatable>::create_from_update(u) {
                Some(v) => v,
                None => return None,
            },
            None => return None,
        };
        Some(StructureNuker { id, room, x, y, hits, hits_max, user, disabled, store, store_capacity_resource, cooldown_time, notify_when_attacked })
    }
}

impl StructureNuker {
    /// Updates this structure with all values present in the given update.
    pub fn update(&mut self, update: StructureNukerUpdate)
        ensures
            final(self).deep_view() == <StructureNuker as Updatable>::applied(
                old(self).deep_view(),
                update.deep_view(),
            ),
    {
        self.apply_update(update);
    }
}

} // verus!
