//! `Tombstone` data description.
use vstd::prelude::*;

use crate::resources::{distinct_keys, entries_map, ResourceType};
use crate::room_name::RoomName;
use crate::store::{Store, StoreUpdate};
use crate::updatable::{Updatable, apply_field, applied_field, created_field, VecUpdate, VecUpdateView};
use super::creep::CreepPartType;

verus! {

/// A tomstone - remnants of a dead creep
#[derive(Clone, Debug, PartialEq)]
pub struct Tombstone {
    /// Unique 'id' identifier for all game objects on a server.
    pub id: String,
    /// Room object is in.
    pub room: RoomName,
    /// X position within the room (0-50).
    pub x: u32,
    /// Y position within the room (0-50).
    pub y: u32,
    /// The user ID of the owner of the creep
    pub user: String,
    /// The body of the creep who died
    pub creep_body: Vec<CreepPartType>,
    /// The ID of the creep who died
    pub creep_id: String,
    /// The name of the creep who died
    pub creep_name: String,
    /// What the creep was saying when they died
    pub creep_saying: Option<String>,
    /// How many ticks-to-live did the creeps have when it died
    pub creep_ticks_to_live: i32,
    /// The time of death of the creep
    pub death_time: u32,
    /// The time at which this structure will decay
    pub decay_time: u32,
    /// The resources and amounts of each resource some game object holds.
    pub store: Store,
}

/// The abstract value of a `Tombstone`.
pub struct TombstoneView {
    pub id: Seq<char>,
    pub room: RoomName,
    pub x: u32,
    pub y: u32,
    pub user: Seq<char>,
    pub creep_body: Seq<CreepPartType>,
    pub creep_id: Seq<char>,
    pub creep_name: Seq<char>,
    pub creep_saying: Option<Seq<char>>,
    pub creep_ticks_to_live: i32,
    pub death_time: u32,
    pub decay_time: u32,
    pub store: Map<ResourceType, i32>,
}

/// The update structure for a `Tombstone`.
///
/// Each field that is present replaces or updates the field of the same name.
#[derive(Clone, Debug, Default)]
pub struct TombstoneUpdate {
    pub id: Option<String>,
    pub room: Option<RoomName>,
    pub x: Option<u32>,
    pub y: Option<u32>,
    pub user: Option<String>,
    pub creep_body: Option<VecUpdate<CreepPartType>>,
    pub creep_id: Option<String>,
    pub creep_name: Option<String>,
    pub creep_saying: Option<Option<String>>,
    pub creep_ticks_to_live: Option<i32>,
    pub death_time: Option<u32>,
    pub decay_time: Option<u32>,
    pub store: Option<StoreUpdate>,
}

/// The abstract value of a `TombstoneUpdate`.
pub struct TombstoneUpdateView {
    pub id: Option<Seq<char>>,
    pub room: Option<RoomName>,
    pub x: Option<u32>,
    pub y: Option<u32>,
    pub user: Option<Seq<char>>,
    pub creep_body: Option<VecUpdateView<CreepPartType>>,
    pub creep_id: Option<Seq<char>>,
    pub creep_name: Option<Seq<char>>,
    pub creep_saying: Option<Option<Seq<char>>>,
    pub creep_ticks_to_live: Option<i32>,
    pub death_time: Option<u32>,
    pub decay_time: Option<u32>,
    pub store: Option<Map<ResourceType, i32>>,
}

impl DeepView for Tombstone {
    type V = TombstoneView;

    open spec fn deep_view(&self) -> TombstoneView {
        TombstoneView {
            id: self.id.deep_view(),
            room: self.room.deep_view(),
            x: self.x.deep_view(),
            y: self.y.deep_view(),
            user: self.user.deep_view(),
            creep_body: self.creep_body.deep_view(),
            creep_id: self.creep_id.deep_view(),
            creep_name: self.creep_name.deep_view(),
            creep_saying: self.creep_saying.deep_view(),
            creep_ticks_to_live: self.creep_ticks_to_live.deep_view(),
            death_time: self.death_time.deep_view(),
            decay_time: self.decay_time.deep_view(),
            store: self.store.deep_view(),
        }
    }
}

impl DeepView for TombstoneUpdate {
    type V = TombstoneUpdateView;

    open spec fn deep_view(&self) -> TombstoneUpdateView {
        TombstoneUpdateView {
            id: self.id.deep_view(),
            room: self.room.deep_view(),
            x: self.x.deep_view(),
            y: self.y.deep_view(),
            user: self.user.deep_view(),
            creep_body: self.creep_body.deep_view(),
            creep_id: self.creep_id.deep_view(),
            creep_name: self.creep_name.deep_view(),
            creep_saying: self.creep_saying.deep_view(),
            creep_ticks_to_live: self.creep_ticks_to_live.deep_view(),
            death_time: self.death_time.deep_view(),
            decay_time: self.decay_time.deep_view(),
            store: self.store.deep_view(),
        }
    }
}

impl Updatable for Tombstone {
    type Update = TombstoneUpdate;

    open spec fn applied(v: TombstoneView, u: TombstoneUpdateView) -> TombstoneView {
        TombstoneView {
            id: applied_field::<String>(v.id, u.id),
            room: applied_field::<RoomName>(v.room, u.room),
            x: applied_field::<u32>(v.x, u.x),
            y: applied_field::<u32>(v.y, u.y),
            user: applied_field::<String>(v.user, u.user),
            creep_body: applied_field::<Vec<CreepPartType>>(v.creep_body, u.creep_body),
            creep_id: applied_field::<String>(v.creep_id, u.creep_id),
            creep_name: applied_field::<String>(v.creep_name, u.creep_name),
            creep_saying: applied_field::<Option<String>>(v.creep_saying, u.creep_saying),
            creep_ticks_to_live: applied_field::<i32>(v.creep_ticks_to_live, u.creep_ticks_to_live),
            death_time: applied_field::<u32>(v.death_time, u.death_time),
            decay_time: applied_field::<u32>(v.decay_time, u.decay_time),
            store: applied_field::<Store>(v.store, u.store),
        }
    }

    open spec fn created(u: TombstoneUpdateView) -> Option<TombstoneView> {
        if created_field::<String>(u.id) is Some
            && created_field::<RoomName>(u.room) is Some
            && created_field::<u32>(u.x) is Some
            && created_field::<u32>(u.y) is Some
            && created_field::<String>(u.user) is Some
            && created_field::<Vec<CreepPartType>>(u.creep_body) is Some
            && created_field::<String>(u.creep_id) is Some
            && created_field::<String>(u.creep_name) is Some
            && created_field::<Option<String>>(u.creep_saying) is Some
            && created_field::<i32>(u.creep_ticks_to_live) is Some
            && created_field::<u32>(u.death_time) is Some
            && created_field::<u32>(u.decay_time) is Some
            && created_field::<Store>(u.store) is Some {
            Some(
                TombstoneView {
                    id: created_field::<String>(u.id)->0,
                    room: created_field::<RoomName>(u.room)->0,
                    x: created_field::<u32>(u.x)->0,
                    y: created_field::<u32>(u.y)->0,
                    user: created_field::<String>(u.user)->0,
                    creep_body: created_field::<Vec<CreepPartType>>(u.creep_body)->0,
                    creep_id: created_field::<String>(u.creep_id)->0,
                    creep_name: created_field::<String>(u.creep_name)->0,
                    creep_saying: created_field::<Option<String>>(u.creep_saying)->0,
                    creep_ticks_to_live: created_field::<i32>(u.creep_ticks_to_live)->0,
                    death_time: created_field::<u32>(u.death_time)->0,
                    decay_time: created_field::<u32>(u.decay_time)->0,
                    store: created_field::<Store>(u.store)->0,
                },
            )
        } else {
            None
        }
    }

    fn apply_update(&mut self, update: TombstoneUpdate) {
        let TombstoneUpdate { id, room, x, y, user, creep_body, creep_id, creep_name, creep_saying, creep_ticks_to_live, death_time, decay_time, store } = update;
        apply_field(&mut self.id, id);
        apply_field(&mut self.room, room);
        apply_field(&mut self.x, x);
        apply_field(&mut self.y, y);
        apply_field(&mut self.user, user);
        apply_field(&mut self.creep_body, creep_body);
        apply_field(&mut self.creep_id, creep_id);
        apply_field(&mut self.creep_name, creep_name);
        apply_field(&mut self.creep_saying, creep_saying);
        apply_field(&mut self.creep_ticks_to_live, creep_ticks_to_live);
        apply_field(&mut self.death_time, death_time);
        apply_field(&mut self.decay_time, decay_time);
        apply_field(&mut self.store, store);
    }

    fn create_from_update(update: TombstoneUpdate) -> (r: Option<Tombstone>) {
        let TombstoneUpdate { id, room, x, y, user, creep_body, creep_id, creep_name, creep_saying, creep_ticks_to_live, death_time, decay_time, store } = update;
        let id = match id {
            Some(u) => match <String as Updatable>::create_from_update(u) {
                Some(v) => v,
                None => return None,
            },
            None => return None,
        };
        let room = match room {
            Some(u) => match <RoomName as Updatable>::create_from_update(u) {
                Some(v) => v,
                None => return None,
            },
            None => return None,
        };
        let x = match x {
            Some(u) => match <u32 as Updatable>::create_from_update(u) {
                Some(v) => v,
                None => return None,
            },
            None => return None,
        };
        let y = match y {
            Some(u) => match <u32 as Updatable>::create_from_update(u) {
                Some(v) => v,
                None => return None,
            },
            None => return None,
        };
        let user = match user {
            Some(u) => match <String as Updatable>::create_from_update(u) {
                Some(v) => v,
                None => return None,
            },
            None => return None,
        };
        let creep_body = match creep_body {
            Some(u) => match <Vec<CreepPartType> as Updatable>::create_from_update(u) {
                Some(v) => v,
                None => return None,
            },
            None => return None,
        };
        let creep_id = match creep_id {
            Some(u) => match <String as Updatable>::create_from_update(u) {
                Some(v) => v,
                None => return None,
            },
            None => return None,
        };
        let creep_name = match creep_name {
            Some(u) => match <String as Updatable>::create_from_update(u) {
                Some(v) => v,
                None => return None,
            },
            None => return None,
        };
        let creep_saying = match creep_saying {
            Some(u) => match <Option<String> as Updatable>::create_from_update(u) {
                Some(v) => v,
                None => return None,
            },
            None => return None,
        };
        let creep_ticks_to_live = match creep_ticks_to_live {
            Some(u) => match <i32 as Updatable>::create_from_update(u) {
                Some(v) => v,
                None => return None,
            },
            None => return None,
        };
        let death_time = match death_time {
            Some(u) => match <u32 as Updatable>::create_from_update(u) {
                Some(v) => v,
                None => return None,
            },
            None => return None,
        };
        let decay_time = match decay_time {
            Some(u) => match <u32 as Updatable>::create_from_update(u) {
                Some(v) => v,
                None => return None,
            },
            None => return None,
        };
        let store = match store {
            Some(u) => match <Store as Updatable>::create_from_update(u) {
                Some(v) => v,
                None => return None,
            },
            None => return None,
        };
        Some(Tombstone { id, room, x, y, user, creep_body, creep_id, creep_name, creep_saying, creep_ticks_to_live, death_time, decay_time, store })
    }
}

impl Tombstone {
    /// Updates this structure with all values present in the given update.
    pub fn update(&mut self, update: TombstoneUpdate)
        ensures
            final(self).deep_view() == <Tombstone as Updatable>::applied(
                old(self).deep_view(),
                update.deep_view(),
            ),
    {
        self.apply_update(update);
    }
}

impl Tombstone {
    /// This structure's resources: each resource type with its amount, each once.
    pub fn resources(&self) -> (r: Vec<(ResourceType, i32)>)
        ensures
            distinct_keys(r@),
            entries_map(r@) == self.store@,
    {
        self.store.iter()
    }
}

} // verus!
