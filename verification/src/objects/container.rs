//! `StructureContainer` data description.
use vstd::prelude::*;

use crate::resources::{distinct_keys, entries_map, ResourceType};
use crate::room_name::RoomName;
use crate::store::{Store, StoreUpdate};
use crate::updatable::{Updatable, apply_field, applied_field, created_field};

verus! {

/// A container structure - a structure which can store a small number of any combination of
/// resources, and can be built in any room, but decays over time.
#[derive(Clone, Debug, PartialEq)]
pub struct StructureContainer {
    /// Unique 'id' identifier for all game objects on a server.
    pub id: String,
    /// Room object is in.
    pub room: RoomName,
    /// X position within the room (0-50).
    pub x: u32,
    /// Y position within the room (0-50).
    pub y: u32,
    /// The current number of hit-points this structure has.
    pub hits: i32,
    /// The maximum number of hit-points this structure has.
    pub hits_max: i32,
    /// Total capacity for this structure.
    pub capacity: i32,
    /// The next game tick when this structure's hits will decrease naturally.
    pub next_decay_time: u32,
    /// Whether or not an attack on this structure will send an email to the owner automatically.
    pub notify_when_attacked: bool,
    /// The resources and amounts of each resource some game object holds.
    pub store: Store,
}

/// The abstract value of a `StructureContainer`.
pub struct StructureContainerView {
    pub id: Seq<char>,
    pub room: RoomName,
    pub x: u32,
    pub y: u32,
    pub hits: i32,
    pub hits_max: i32,
    pub capacity: i32,
    pub next_decay_time: u32,
    pub notify_when_attacked: bool,
    pub store: Map<ResourceType, i32>,
}

/// The update structure for an extension structure.
///
/// Each field that is present replaces or updates the field of the same name.
#[derive(Clone, Debug, Default)]
pub struct StructureContainerUpdate {
    pub id: Option<String>,
    pub room: Option<RoomName>,
    pub x: Option<u32>,
    pub y: Option<u32>,
    pub hits: Option<i32>,
    pub hits_max: Option<i32>,
    pub capacity: Option<i32>,
    pub next_decay_time: Option<u32>,
    pub notify_when_attacked: Option<bool>,
    pub store: Option<StoreUpdate>,
}

/// The abstract value of a `StructureContainerUpdate`.
pub struct StructureContainerUpdateView {
    pub id: Option<Seq<char>>,
    pub room: Option<RoomName>,
    pub x: Option<u32>,
    pub y: Option<u32>,
    pub hits: Option<i32>,
    pub hits_max: Option<i32>,
    pub capacity: Option<i32>,
    pub next_decay_time: Option<u32>,
    pub notify_when_attacked: Option<bool>,
    pub store: Option<Map<ResourceType, i32>>,
}

impl DeepView for StructureContainer {
    type V = StructureContainerView;

    open spec fn deep_view(&self) -> StructureContainerView {
        StructureContainerView {
            id: self.id.deep_view(),
            room: self.room.deep_view(),
            x: self.x.deep_view(),
            y: self.y.deep_view(),
            hits: self.hits.deep_view(),
            hits_max: self.hits_max.deep_view(),
            capacity: self.capacity.deep_view(),
            next_decay_time: self.next_decay_time.deep_view(),
            notify_when_attacked: self.notify_when_attacked.deep_view(),
            store: self.store.deep_view(),
        }
    }
}

impl DeepView for StructureContainerUpdate {
    type V = StructureContainerUpdateView;

    open spec fn deep_view(&self) -> StructureContainerUpdateView {
        StructureContainerUpdateView {
            id: self.id.deep_view(),
            room: self.room.deep_view(),
            x: self.x.deep_view(),
            y: self.y.deep_view(),
            hits: self.hits.deep_view(),
            hits_max: self.hits_max.deep_view(),
            capacity: self.capacity.deep_view(),
            next_decay_time: self.next_decay_time.deep_view(),
            notify_when_attacked: self.notify_when_attacked.deep_view(),
            store: self.store.deep_view(),
        }
    }
}

impl Updatable for StructureContainer {
    type Update = StructureContainerUpdate;

    open spec fn applied(v: StructureContainerView, u: StructureContainerUpdateView) -> StructureContainerView {
        StructureContainerView {
            id: applied_field::<String>(v.id, u.id),
            room: applied_field::<RoomName>(v.room, u.room),
            x: applied_field::<u32>(v.x, u.x),
            y: applied_field::<u32>(v.y, u.y),
            hits: applied_field::<i32>(v.hits, u.hits),
            hits_max: applied_field::<i32>(v.hits_max, u.hits_max),
            capacity: applied_field::<i32>(v.capacity, u.capacity),
            next_decay_time: applied_field::<u32>(v.next_decay_time, u.next_decay_time),
            notify_when_attacked: applied_field::<bool>(v.notify_when_attacked, u.notify_when_attacked),
            store: applied_field::<Store>(v.store, u.store),
        }
    }

    open spec fn created(u: StructureContainerUpdateView) -> Option<StructureContainerView> {
        if created_field::<String>(u.id) is Some
            && created_field::<RoomName>(u.room) is Some
            && created_field::<u32>(u.x) is Some
            && created_field::<u32>(u.y) is Some
            && created_field::<i32>(u.hits) is Some
            && created_field::<i32>(u.hits_max) is Some
            && created_field::<i32>(u.capacity) is Some
            && created_field::<u32>(u.next_decay_time) is Some
            && created_field::<bool>(u.notify_when_attacked) is Some
            && created_field::<Store>(u.store) is Some {
            Some(
                StructureContainerView {
                    id: created_field::<String>(u.id)->0,
                    room: created_field::<RoomName>(u.room)->0,
                    x: created_field::<u32>(u.x)->0,
                    y: created_field::<u32>(u.y)->0,
                    hits: created_field::<i32>(u.hits)->0,
                    hits_max: created_field::<i32>(u.hits_max)->0,
                    capacity: created_field::<i32>(u.capacity)->0,
                    next_decay_time: created_field::<u32>(u.next_decay_time)->0,
                    notify_when_attacked: created_field::<bool>(u.notify_when_attacked)->0,
                    store: created_field::<Store>(u.store)->0,
                },
            )
        } else {
            None
        }
    }

    fn apply_update(&mut self, update: StructureContainerUpdate) {
        let StructureContainerUpdate { id, room, x, y, hits, hits_max, capacity, next_decay_time, notify_when_attacked, store } = update;
        apply_field(&mut self.id, id);
        apply_field(&mut self.room, room);
        apply_field(&mut self.x, x);
        apply_field(&mut self.y, y);
        apply_field(&mut self.hits, hits);
        apply_field(&mut self.hits_max, hits_max);
        apply_field(&mut self.capacity, capacity);
        apply_field(&mut self.next_decay_time, next_decay_time);
        apply_field(&mut self.notify_when_attacked, notify_when_attacked);
        apply_field(&mut self.store, store);
    }

    fn create_from_update(update: StructureContainerUpdate) -> (r: Option<StructureContainer>) {
        let StructureContainerUpdate { id, room, x, y, hits, hits_max, capacity, next_decay_time, notify_when_attacked, store } = update;
        let id = match id {
            Some(u) => match <String as Updatable>::create_from_update(u) {
                Some(v) => v,
                None => return None,
            },
            None => return None,
        };
        let room = match room {
            Some(u) => match <RoomName as Updatable>::create_from_update(u) {
                Some(v) => v,
                None => return None,
            },
            None => return None,
        };
        let x = match x {
            Some(u) => match <u32 as Updatable>::create_from_update(u) {
                Some(v) => v,
                None => return None,
            },
            None => return None,
        };
        let y = match y {
            Some(u) => match <u32 as Updatable>::create_from_update(u) {
                Some(v) => v,
                None => return None,
            },
            None => return None,
        };
        let hits = match hits {
            Some(u) => match <i32 as Updatable>::create_from_update(u) {
                Some(v) => v,
                None => return None,
            },
            None => return None,
        };
        let hits_max = match hits_max {
            Some(u) => match <i32 as Updatable>::create_from_update(u) {
                Some(v) => v,
                None => return None,
            },
            None => return None,
        };
        let capacity = match capacity {
            Some(u) => match <i32 as Updatable>::create_from_update(u) {
                Some(v) => v,
                None => return None,
            },
            None => return None,
        };
        let next_decay_time = match next_decay_time {
            Some(u) => match <u32 as Updatable>::create_from_update(u) {
                Some(v) => v,
                None => return None,
            },
            None => return None,
        };
        let notify_when_attacked = match notify_when_attacked {
            Some(u) => match <bool as Updatable>::create_from_update(u) {
                Some(v) => v,
                None => return None,
            },
            None => return None,
        };
        let store = match store {
            Some(u) => match <Store as Updatable>::create_from_update(u) {
                Some(v) => v,
                None => return None,
            },
            None => return None,
        };
        Some(StructureContainer { id, room, x, y, hits, hits_max, capacity, next_decay_time, notify_when_attacked, store })
    }
}

impl StructureContainer {
    /// Updates this structure with all values present in the given update.
    pub fn update(&mut self, update: StructureContainerUpdate)
        ensures
            final(self).deep_view() == <StructureContainer as Updatable>::applied(
                old(self).deep_view(),
                update.deep_view(),
            ),
    {
        self.apply_update(update);
    }
}

impl StructureContainer {
    /// This structure's resources: each resource type with its amount, each once.
    pub fn resources(&self) -> (r: Vec<(ResourceType, i32)>)
        ensures
            distinct_keys(r@),
            entries_map(r@) == self.store@,
    {
        self.store.iter()
    }
}

} // verus!
