//! `StructureKeeperLair` data description.
use vstd::prelude::*;

use crate::room_name::RoomName;
use crate::updatable::{Updatable, apply_field, applied_field, created_field};

verus! {

/// A keeper lair - a structure which spawns npc hostiles to protect minerals and resources nearby.
#[derive(Clone, Debug, PartialEq)]
pub struct StructureKeeperLair {
    /// Unique 'id' identifier for all game objects on a server.
    pub id: String,
    /// Room object is in.
    pub room: RoomName,
    /// X position within the room (0-50).
    pub x: u32,
    /// Y position within the room (0-50).
    pub y: u32,
    /// The next game time at which this structure will spawn an NPC.
    ///
    /// If an NPC this structure spawned is currently alive, the structure waits until that NPC dies
    /// before starting the timer. This is what a null/None value indicates.
    pub next_spawn_time: Option<u32>,
}

/// The abstract value of a `StructureKeeperLair`.
pub struct StructureKeeperLairView {
    pub id: Seq<char>,
    pub room: RoomName,
    pub x: u32,
    pub y: u32,
    pub next_spawn_time: Option<u32>,
}

/// The update structure for a keeper lair structure.
///
/// Each field that is present replaces or updates the field of the same name.
#[derive(Clone, Debug, Default)]
pub struct StructureKeeperLairUpdate {
    pub id: Option<String>,
    pub room: Option<RoomName>,
    pub x: Option<u32>,
    pub y: Option<u32>,
    pub next_spawn_time: Option<Option<u32>>,
}

/// The abstract value of a `StructureKeeperLairUpdate`.
pub struct StructureKeeperLairUpdateView {
    pub id: Option<Seq<char>>,
    pub room: Option<RoomName>,
    pub x: Option<u32>,
    pub y: Option<u32>,
    pub next_spawn_time: Option<Option<u32>>,
}

impl DeepView for StructureKeeperLair {
    type V = StructureKeeperLairView;

    open spec fn deep_view(&self) -> StructureKeeperLairView {
        StructureKeeperLairView {
            id: self.id.deep_view(),
            room: self.room.deep_view(),
            x: self.x.deep_view(),
            y: self.y.deep_view(),
            next_spawn_time: self.next_spawn_time.deep_view(),
        }
    }
}

impl DeepView for StructureKeeperLairUpdate {
    type V = StructureKeeperLairUpdateView;

    open spec fn deep_view(&self) -> StructureKeeperLairUpdateView {
        StructureKeeperLairUpdateView {
            id: self.id.deep_view(),
            room: self.room.deep_view(),
            x: self.x.deep_view(),
            y: self.y.deep_view(),
            next_spawn_time: self.next_spawn_time.deep_view(),
        }
    }
}

impl Updatable for StructureKeeperLair {
    type Update = StructureKeeperLairUpdate;

    open spec fn applied(v: StructureKeeperLairView, u: StructureKeeperLairUpdateView) -> StructureKeeperLairView {
        StructureKeeperLairView {
            id: applied_field::<String>(v.id, u.id),
            room: applied_field::<RoomName>(v.room, u.room),
            x: applied_field::<u32>(v.x, u.x),
            y: applied_field::<u32>(v.y, u.y),
            next_spawn_time: applied_field::<Option<u32>>(v.next_spawn_time, u.next_spawn_time),
        }
    }

    open spec fn created(u: StructureKeeperLairUpdateView) -> Option<StructureKeeperLairView> {
        if created_field::<String>(u.id) is Some
            && created_field::<RoomName>(u.room) is Some
            && created_field::<u32>(u.x) is Some
            && created_field::<u32>(u.y) is Some
            && created_field::<Option<u32>>(u.next_spawn_time) is Some {
            Some(
                StructureKeeperLairView {
                    id: created_field::<String>(u.id)->0,
                    room: created_field::<RoomName>(u.room)->0,
                    x: created_field::<u32>(u.x)->0,
                    y: created_field::<u32>(u.y)->0,
                    next_spawn_time: created_field::<Option<u32>>(u.next_spawn_time)->0,
                },
            )
        } else {
            None
        }
    }

    fn apply_update(&mut self, update: StructureKeeperLairUpdate) {
        let StructureKeeperLairUpdate { id, room, x, y, next_spawn_time } = update;
        apply_field(&mut self.id, id);
        apply_field(&mut self.room, room);
        apply_field(&mut self.x, x);
        apply_field(&mut self.y, y);
        apply_field(&mut self.next_spawn_time, next_spawn_time);
    }

    fn create_from_update(update: StructureKeeperLairUpdate) -> (r: Option<StructureKeeperLair>) {
        let StructureKeeperLairUpdate { id, room, x, y, next_spawn_time } = update;
        let id = match id {
            Some(u) => match <String as Updatable>::create_from_update(u) {
                Some(v) => v,
                None => return None,
            },
            None => return None,
        };
        let room = match room {
            Some(u) => match <RoomName as Updatable>::create_from_update(u) {
                Some(v) => v,
                None => return None,
            },
            None => return None,
        };
        let x = match x {
            Some(u) => match <u32 as Updatable>::create_from_update(u) {
                Some(v) => v,
                None => return None,
            },
            None => return None,
        };
        let y = match y {
            Some(u) => match <u32 as Updatable>::create_from_update(u) {
                Some(v) => v,
                None => return None,
            },
            None => return None,
        };
        let next_spawn_time = match next_spawn_time {
            Some(u) => match <Option<u32> as Updatable>::create_from_update(u) {
                Some(v) => v,
                None => return None,
            },
            None => return None,
        };
        Some(StructureKeeperLair { id, room, x, y, next_spawn_time })
    }
}

impl StructureKeeperLair {
    /// Updates this structure with all values present in the given update.
    pub fn update(&mut self, update: StructureKeeperLairUpdate)
        ensures
            final(self).deep_view() == <StructureKeeperLair as Updatable>::applied(
                old(self).deep_view(),
                update.deep_view(),
            ),
    {
        self.apply_update(update);
    }
}

} // verus!
