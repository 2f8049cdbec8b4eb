//! `StructurePowerBank` data description.
use vstd::prelude::*;

use crate::room_name::RoomName;
use crate::updatable::{Updatable, apply_field, applied_field, created_field};

verus! {

/// A power bank object, which can be attacked by creeps, and when killed will yield a harvest of power.
#[derive(Clone, Debug, PartialEq)]
pub struct StructurePowerBank {
    /// Unique 'id' identifier for all game objects on a server.
    pub id: String,
    /// Room object is in.
    pub room: RoomName,
    /// X position within the room (0-50).
    pub x: u32,
    /// Y position within the room (0-50).
    pub y: u32,
    /// The current number of hit-points this structure has.
    pub hits: i32,
    /// The maximum number of hit-points this structure has.
    pub hits_max: i32,
    /// The game time at which this power bank will cease to exist, if it has not been killed by then.
    pub decay_time: u32,
    /// The amount of power held in this power bank - this amount will be dropped when the power bank's
    /// hits drops to 0.
    pub power: i32,
}

/// The abstract value of a `StructurePowerBank`.
pub struct StructurePowerBankView {
    pub id: Seq<char>,
    pub room: RoomName,
    pub x: u32,
    pub y: u32,
    pub hits: i32,
    pub hits_max: i32,
    pub decay_time: u32,
    pub power: i32,
}

/// The update structure for a `StructurePowerBank`.
///
/// Each field that is present replaces or updates the field of the same name.
#[derive(Clone, Debug, Default)]
pub struct StructurePowerBankUpdate {
    pub id: Option<String>,
    pub room: Option<RoomName>,
    pub x: Option<u32>,
    pub y: Option<u32>,
    pub hits: Option<i32>,
    pub hits_max: Option<i32>,
    pub decay_time: Option<u32>,
    pub power: Option<i32>,
}

/// The abstract value of a `StructurePowerBankUpdate`.
pub struct StructurePowerBankUpdateView {
    pub id: Option<Seq<char>>,
    pub room: Option<RoomName>,
    pub x: Option<u32>,
    pub y: Option<u32>,
    pub hits: Option<i32>,
    pub hits_max: Option<i32>,
    pub decay_time: Option<u32>,
    pub power: Option<i32>,
}

impl DeepView for StructurePowerBank {
    type V = StructurePowerBankView;

    open spec fn deep_view(&self) -> StructurePowerBankView {
        StructurePowerBankView {
            id: self.id.deep_view(),
            room: self.room.deep_view(),
            x: self.x.deep_view(),
            y: self.y.deep_view(),
            hits: self.hits.deep_view(),
            hits_max: self.hits_max.deep_view(),
            decay_time: self.decay_time.deep_view(),
            power: self.power.deep_view(),
        }
    }
}

impl DeepView for StructurePowerBankUpdate {
    type V = StructurePowerBankUpdateView;

    open spec fn deep_view(&self) -> StructurePowerBankUpdateView {
        StructurePowerBankUpdateView {
            id: self.id.deep_view(),
            room: self.room.deep_view(),
            x: self.x.deep_view(),
            y: self.y.deep_view(),
            hits: self.hits.deep_view(),
            hits_max: self.hits_max.deep_view(),
            decay_time: self.decay_time.deep_view(),
            power: self.power.deep_view(),
        }
    }
}

impl Updatable for StructurePowerBank {
    type Update = StructurePowerBankUpdate;

    open spec fn applied(v: StructurePowerBankView, u: StructurePowerBankUpdateView) -> StructurePowerBankView {
        StructurePowerBankView {
            id: applied_field::<String>(v.id, u.id),
            room: applied_field::<RoomName>(v.room, u.room),
            x: applied_field::<u32>(v.x, u.x),
            y: applied_field::<u32>(v.y, u.y),
            hits: applied_field::<i32>(v.hits, u.hits),
            hits_max: applied_field::<i32>(v.hits_max, u.hits_max),
            decay_time: applied_field::<u32>(v.decay_time, u.decay_time),
            power: applied_field::<i32>(v.power, u.power),
        }
    }

    open spec fn created(u: StructurePowerBankUpdateView) -> Option<StructurePowerBankView> {
        if created_field::<String>(u.id) is Some
            && created_field::<RoomName>(u.room) is Some
            && created_field::<u32>(u.x) is Some
            && created_field::<u32>(u.y) is Some
            && created_field::<i32>(u.hits) is Some
            && created_field::<i32>(u.hits_max) is Some
            && created_field::<u32>(u.decay_time) is Some
            && created_field::<i32>(u.power) is Some {
            Some(
                StructurePowerBankView {
                    id: created_field::<String>(u.id)->0,
                    room: created_field::<RoomName>(u.room)->0,
                    x: created_field::<u32>(u.x)->0,
                    y: created_field::<u32>(u.y)->0,
                    hits: created_field::<i32>(u.hits)->0,
                    hits_max: created_field::<i32>(u.hits_max)->0,
                    decay_time: created_field::<u32>(u.decay_time)->0,
                    power: created_field::<i32>(u.power)->0,
                },
            )
        } else {
            None
        }
    }

    fn apply_update(&mut self, update: StructurePowerBankUpdate) {
        let StructurePowerBankUpdate { id, room, x, y, hits, hits_max, decay_time, power } = update;
        apply_field(&mut self.id, id);
        apply_field(&mut self.room, room);
        apply_field(&mut self.x, x);
        apply_field(&mut self.y, y);
        apply_field(&mut self.hits, hits);
        apply_field(&mut self.hits_max, hits_max);
        apply_field(&mut self.decay_time, decay_time);
        apply_field(&mut self.power, power);
    }

    fn create_from_update(update: StructurePowerBankUpdate) -> (r: Option<StructurePowerBank>) {
        let StructurePowerBankUpdate { id, room, x, y, hits, hits_max, decay_time, power } = update;
        let id = match id {
            Some(u) => match <String as Updatable>::create_from_update(u) {
                Some(v) => v,
                None => return None,
            },
            None => return None,
        };
        let room = match room {
            Some(u) => match <RoomName as Updatable>::create_from_update(u) {
                Some(v) => v,
                None => return None,
            },
            None => return None,
        };
        let x = match x {
            Some(u) => match <u32 as Updatable>::create_from_update(u) {
                Some(v) => v,
                None => return None,
            },
            None => return None,
        };
        let y = match y {
            Some(u) => match <u32 as Updatable>::create_from_update(u) {
                Some(v) => v,
                None => return None,
            },
            None => return None,
        };
        let hits = match hits {
            Some(u) => match <i32 as Updatable>::create_from_update(u) {
                Some(v) => v,
                None => return None,
            },
            None => return None,
        };
        let hits_max = match hits_max {
            Some(u) => match <i32 as Updatable>::create_from_update(u) {
                Some(v) => v,
                None => return None,
            },
            None => return None,
        };
        let decay_time = match decay_time {
            Some(u) => match <u32 as Updatable>::create_from_update(u) {
                Some(v) => v,
                None => return None,
            },
            None => return None,
        };
        let power = match power {
            Some(u) => match <i32 as Updatable>::create_from_update(u) {
                Some(v) => v,
                None => return None,
            },
            None => return None,
        };
        Some(StructurePowerBank { id, room, x, y, hits, hits_max, decay_time, power })
    }
}

impl StructurePowerBank {
    /// Updates this structure with all values present in the given update.
    pub fn update(&mut self, update: StructurePowerBankUpdate)
        ensures
            final(self).deep_view() == <StructurePowerBank as Updatable>::applied(
                old(self).deep_view(),
                update.deep_view(),
            ),
    {
        self.apply_update(update);
    }
}

} // verus!
