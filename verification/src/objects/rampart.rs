//! `StructureRampart` data description.
use vstd::prelude::*;

use crate::room_name::RoomName;
use crate::updatable::{Updatable, apply_field, applied_field, created_field};

verus! {

/// A rampart structure - a structure that has a large amount of possible hit points, and is uniquely
/// walkable only for the owner.
#[derive(Clone, Debug, PartialEq)]
pub struct StructureRampart {
    /// Unique 'id' identifier for all game objects on a server.
    pub id: String,
    /// Room object is in.
    pub room: RoomName,
    /// X position within the room (0-50).
    pub x: u32,
    /// Y position within the room (0-50).
    pub y: u32,
    /// The current number of hit-points this structure has.
    pub hits: i32,
    /// The maximum number of hit-points this structure has.
    pub hits_max: i32,
    /// The user ID of the owner of this structure.
    pub user: String,
    /// The next game tick when this roads hits will decrease naturally.
    pub next_decay_time: u32,
    /// Whether or not an attack on this structure will send an email to the owner automatically.
    pub notify_when_attacked: bool,
    /// If true, creeps not owned by the owner of this structure can also walk on it.
    pub public: bool,
}

/// The abstract value of a `StructureRampart`.
pub struct StructureRampartView {
    pub id: Seq<char>,
    pub room: RoomName,
    pub x: u32,
    pub y: u32,
    pub hits: i32,
    pub hits_max: i32,
    pub user: Seq<char>,
    pub next_decay_time: u32,
    pub notify_when_attacked: bool,
    pub public: bool,
}

/// The update structure for a rampart structure.
///
/// Each field that is present replaces or updates the field of the same name.
#[derive(Clone, Debug, Default)]
pub struct StructureRampartUpdate {
    pub id: Option<String>,
    pub room: Option<RoomName>,
    pub x: Option<u32>,
    pub y: Option<u32>,
    pub hits: Option<i32>,
    pub hits_max: Option<i32>,
    pub user: Option<String>,
    pub next_decay_time: Option<u32>,
    pub notify_when_attacked: Option<bool>,
    pub public: Option<bool>,
}

/// The abstract value of a `StructureRampartUpdate`.
pub struct StructureRampartUpdateView {
    pub id: Option<Seq<char>>,
    pub room: Option<RoomName>,
    pub x: Option<u32>,
    pub y: Option<u32>,
    pub hits: Option<i32>,
    pub hits_max: Option<i32>,
    pub user: Option<Seq<char>>,
    pub next_decay_time: Option<u32>,
    pub notify_when_attacked: Option<bool>,
    pub public: Option<bool>,
}

impl DeepView for StructureRampart {
    type V = StructureRampartView;

    open spec fn deep_view(&self) -> StructureRampartView {
        StructureRampartView {
            id: self.id.deep_view(),
            room: self.room.deep_view(),
            x: self.x.deep_view(),
            y: self.y.deep_view(),
            hits: self.hits.deep_view(),
            hits_max: self.hits_max.deep_view(),
            user: self.user.deep_view(),
            next_decay_time: self.next_decay_time.deep_view(),
            notify_when_attacked: self.notify_when_attacked.deep_view(),
            public: self.public.deep_view(),
        }
    }
}

impl DeepView for StructureRampartUpdate {
    type V = StructureRampartUpdateView;

    open spec fn deep_view(&self) -> StructureRampartUpdateView {
        StructureRampartUpdateView {
            id: self.id.deep_view(),
            room: self.room.deep_view(),
            x: self.x.deep_view(),
            y: self.y.deep_view(),
            hits: self.hits.deep_view(),
            hits_max: self.hits_max.deep_view(),
            user: self.user.deep_view(),
            next_decay_time: self.next_decay_time.deep_view(),
            notify_when_attacked: self.notify_when_attacked.deep_view(),
            public: self.public.deep_view(),
        }
    }
}

impl Updatable for StructureRampart {
    type Update = StructureRampartUpdate;

    open spec fn applied(v: StructureRampartView, u: StructureRampartUpdateView) -> StructureRampartView {
        StructureRampartView {
            id: applied_field::<String>(v.id, u.id),
            room: applied_field::<RoomName>(v.room, u.room),
            x: applied_field::<u32>(v.x, u.x),
            y: applied_field::<u32>(v.y, u.y),
            hits: applied_field::<i32>(v.hits, u.hits),
            hits_max: applied_field::<i32>(v.hits_max, u.hits_max),
            user: applied_field::<String>(v.user, u.user),
            next_decay_time: applied_field::<u32>(v.next_decay_time, u.next_decay_time),
            notify_when_attacked: applied_field::<bool>(v.notify_when_attacked, u.notify_when_attacked),
            public: applied_field::<bool>(v.public, u.public),
        }
    }

    open spec fn created(u: StructureRampartUpdateView) -> Option<StructureRampartView> {
        if created_field::<String>(u.id) is Some
            && created_field::<RoomName>(u.room) is Some
            && created_field::<u32>(u.x) is Some
            && created_field::<u32>(u.y) is Some
            && created_field::<i32>(u.hits) is Some
            && created_field::<i32>(u.hits_max) is Some
            && created_field::<String>(u.user) is Some
            && created_field::<u32>(u.next_decay_time) is Some
            && created_field::<bool>(u.notify_when_attacked) is Some
            && created_field::<bool>(u.public) is Some {
            Some(
                StructureRampartView {
                    id: created_field::<String>(u.id)->0,
                    room: created_field::<RoomName>(u.room)->0,
                    x: created_field::<u32>(u.x)->0,
                    y: created_field::<u32>(u.y)->0,
                    hits: created_field::<i32>(u.hits)->0,
                    hits_max: created_field::<i32>(u.hits_max)->0,
                    user: created_field::<String>(u.user)->0,
                    next_decay_time: created_field::<u32>(u.next_decay_time)->0,
                    notify_when_attacked: created_field::<bool>(u.notify_when_attacked)->0,
                    public: created_field::<bool>(u.public)->0,
                },
            )
        } else {
            None
        }
    }

    fn apply_update(&mut self, update: StructureRampartUpdate) {
        let StructureRampartUpdate { id, room, x, y, hits, hits_max, user, next_decay_time, notify_when_attacked, public } = update;
        apply_field(&mut self.id, id);
        apply_field(&mut self.room, room);
        apply_field(&mut self.x, x);
        apply_field(&mut self.y, y);
        apply_field(&mut self.hits, hits);
        apply_field(&mut self.hits_max, hits_max);
        apply_field(&mut self.user, user);
        apply_field(&mut self.next_decay_time, next_decay_time);
        apply_field(&mut self.notify_when_attacked, notify_when_attacked);
        apply_field(&mut self.public, public);
    }

    fn create_from_update(update: StructureRampartUpdate) -> (r: Option<StructureRampart>) {
        let StructureRampartUpdate { id, room, x, y, hits, hits_max, user, next_decay_time, notify_when_attacked, public } = update;
        let id = match id {
            Some(u) => match <String as Updatable>::create_from_update(u) {
                Some(v) => v,
                None => return None,
            },
            None => return None,
        };
        let room = match room {
            Some(u) => match <RoomName as Updatable>::create_from_update(u) {
                Some(v) => v,
                None => return None,
            },
            None => return None,
        };
        let x = match x {
            Some(u) => match <u32 as Updatable>::create_from_update(u) {
                Some(v) => v,
                None => return None,
            },
            None => return None,
        };
        let y = match y {
            Some(u) => match <u32 as Updatable>::create_from_update(u) {
                Some(v) => v,
                None => return None,
            },
            None => return None,
        };
        let hits = match hits {
            Some(u) => match <i32 as Updatable>::create_from_update(u) {
                Some(v) => v,
                None => return None,
            },
            None => return None,
        };
        let hits_max = match hits_max {
            Some(u) => match <i32 as Updatable>::create_from_update(u) {
                Some(v) => v,
                None => return None,
            },
            None => return None,
        };
        let user = match user {
            Some(u) => match <String as Updatable>::create_from_update(u) {
                Some(v) => v,
                None => return None,
            },
            None => return None,
        };
        let next_decay_time = match next_decay_time {
            Some(u) => match <u32 as Updatable>::create_from_update(u) {
                Some(v) => v,
                None => return None,
            },
            None => return None,
        };
        let notify_when_attacked = match notify_when_attacked {
            Some(u) => match <bool as Updatable>::create_from_update(u) {
                Some(v) => v,
                None => return None,
            },
            None => return None,
        };
        let public = match public {
            Some(u) => match <bool as Updatable>::create_from_update(u) {
                Some(v) => v,
                None => return None,
            },
            None => return None,
        };
        Some(StructureRampart { id, room, x, y, hits, hits_max, user, next_decay_time, notify_when_attacked, public })
    }
}

impl StructureRampart {
    /// Updates this structure with all values present in the given update.
    pub fn update(&mut self, update: StructureRampartUpdate)
        ensures
            final(self).deep_view() == <StructureRampart as Updatable>::applied(
                old(self).deep_view(),
                update.deep_view(),
            ),
    {
        self.apply_update(update);
    }
}

} // verus!
