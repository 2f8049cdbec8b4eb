//! `StructureWall` data description.
use vstd::prelude::*;

use crate::room_name::RoomName;
use crate::updatable::{Updatable, apply_field, applied_field, created_field, Timespec};

verus! {

/// Describes the decay of a decaying wall.
#[derive(Clone, Debug, PartialEq)]
pub struct WallDecayTime {
    /// Unix timestamp of when this wall will decay.
    pub timestamp: Timespec,
}

/// The abstract value of a `WallDecayTime`.
pub struct WallDecayTimeView {
    pub timestamp: Timespec,
}

/// The update structure for a wall decay description.
///
/// Each field that is present replaces or updates the field of the same name.
#[derive(Clone, Debug, Default)]
pub struct WallDecayTimeUpdate {
    pub timestamp: Option<Timespec>,
}

/// The abstract value of a `WallDecayTimeUpdate`.
pub struct WallDecayTimeUpdateView {
    pub timestamp: Option<Timespec>,
}

impl DeepView for WallDecayTime {
    type V = WallDecayTimeView;

    open spec fn deep_view(&self) -> WallDecayTimeView {
        WallDecayTimeView {
            timestamp: self.timestamp.deep_view(),
        }
    }
}

impl DeepView for WallDecayTimeUpdate {
    type V = WallDecayTimeUpdateView;

    open spec fn deep_view(&self) -> WallDecayTimeUpdateView {
        WallDecayTimeUpdateView {
            timestamp: self.timestamp.deep_view(),
        }
    }
}

impl Updatable for WallDecayTime {
    type Update = WallDecayTimeUpdate;

    open spec fn applied(v: WallDecayTimeView, u: WallDecayTimeUpdateView) -> WallDecayTimeView {
        WallDecayTimeView {
            timestamp: applied_field::<Timespec>(v.timestamp, u.timestamp),
        }
    }

    open spec fn created(u: WallDecayTimeUpdateView) -> Option<WallDecayTimeView> {
        if created_field::<Timespec>(u.timestamp) is Some {
            Some(
                WallDecayTimeView {
                    timestamp: created_field::<Timespec>(u.timestamp)->0,
                },
            )
        } else {
            None
        }
    }

    fn apply_update(&mut self, update: WallDecayTimeUpdate) {
        let WallDecayTimeUpdate { timestamp } = update;
        apply_field(&mut self.timestamp, timestamp);
    }

    fn create_from_update(update: WallDecayTimeUpdate) -> (r: Option<WallDecayTime>) {
        let WallDecayTimeUpdate { timestamp } = update;
        let timestamp = match timestamp {
            Some(u) => match <Timespec as Updatable>::create_from_update(u) {
                Some(v) => v,
                None => return None,
            },
            None => return None,
        };
        Some(WallDecayTime { timestamp })
    }
}

impl WallDecayTime {
    /// Updates this structure with all values present in the given update.
    pub fn update(&mut self, update: WallDecayTimeUpdate)
        ensures
            final(self).deep_view() == <WallDecayTime as Updatable>::applied(
                old(self).deep_view(),
                update.deep_view(),
            ),
    {
        self.apply_update(update);
    }
}

/// A wall structure - a structure that has a large amount of possible hit points.
#[derive(Clone, Debug, PartialEq)]
pub struct StructureWall {
    /// Unique 'id' identifier for all game objects on a server.
    pub id: String,
    /// Room object is in.
    pub room: RoomName,
    /// X position within the room (0-50).
    pub x: u32,
    /// Y position within the room (0-50).
    pub y: u32,
    /// The current number of hit-points this structure has.
    pub hits: i32,
    /// The maximum number of hit-points this structure has.
    pub hits_max: i32,
    /// Whether or not an attack on this structure will send an email to the owner automatically.
    pub notify_when_attacked: bool,
    /// If this wall is protecting a novice or respawn area, this holds the time the wall will decay at.
    pub decay_time: Option<WallDecayTime>,
}

/// The abstract value of a `StructureWall`.
pub struct StructureWallView {
    pub id: Seq<char>,
    pub room: RoomName,
    pub x: u32,
    pub y: u32,
    pub hits: i32,
    pub hits_max: i32,
    pub notify_when_attacked: bool,
    pub decay_time: Option<WallDecayTimeView>,
}

/// The update structure for a wall structure.
///
/// Each field that is present replaces or updates the field of the same name.
#[derive(Clone, Debug, Default)]
pub struct StructureWallUpdate {
    pub id: Option<String>,
    pub room: Option<RoomName>,
    pub x: Option<u32>,
    pub y: Option<u32>,
    pub hits: Option<i32>,
    pub hits_max: Option<i32>,
    pub notify_when_attacked: Option<bool>,
    pub decay_time: Option<Option<WallDecayTimeUpdate>>,
}

/// The abstract value of a `StructureWallUpdate`.
pub struct StructureWallUpdateView {
    pub id: Option<Seq<char>>,
    pub room: Option<RoomName>,
    pub x: Option<u32>,
    pub y: Option<u32>,
    pub hits: Option<i32>,
    pub hits_max: Option<i32>,
    pub notify_when_attacked: Option<bool>,
    pub decay_time: Option<Option<WallDecayTimeUpdateView>>,
}

impl DeepView for StructureWall {
    type V = StructureWallView;

    open spec fn deep_view(&self) -> StructureWallView {
        StructureWallView {
            id: self.id.deep_view(),
            room: self.room.deep_view(),
            x: self.x.deep_view(),
            y: self.y.deep_view(),
            hits: self.hits.deep_view(),
            hits_max: self.hits_max.deep_view(),
            notify_when_attacked: self.notify_when_attacked.deep_view(),
            decay_time: self.decay_time.deep_view(),
        }
    }
}

impl DeepView for StructureWallUpdate {
    type V = StructureWallUpdateView;

    open spec fn deep_view(&self) -> StructureWallUpdateView {
        StructureWallUpdateView {
            id: self.id.deep_view(),
            room: self.room.deep_view(),
            x: self.x.deep_view(),
            y: self.y.deep_view(),
            hits: self.hits.deep_view(),
            hits_max: self.hits_max.deep_view(),
            notify_when_attacked: self.notify_when_attacked.deep_view(),
            decay_time: self.decay_time.deep_view(),
        }
    }
}

impl Updatable for StructureWall {
    type Update = StructureWallUpdate;

    open spec fn applied(v: StructureWallView, u: StructureWallUpdateView) -> StructureWallView {
        StructureWallView {
            id: applied_field::<String>(v.id, u.id),
            room: applied_field::<RoomName>(v.room, u.room),
            x: applied_field::<u32>(v.x, u.x),
            y: applied_field::<u32>(v.y, u.y),
            hits: applied_field::<i32>(v.hits, u.hits),
            hits_max: applied_field::<i32>(v.hits_max, u.hits_max),
            notify_when_attacked: applied_field::<bool>(v.notify_when_attacked, u.notify_when_attacked),
            decay_time: applied_field::<Option<WallDecayTime>>(v.decay_time, u.decay_time),
        }
    }

    open spec fn created(u: StructureWallUpdateView) -> Option<StructureWallView> {
        if created_field::<String>(u.id) is Some
            && created_field::<RoomName>(u.room) is Some
            && created_field::<u32>(u.x) is Some
            && created_field::<u32>(u.y) is Some
            && created_field::<i32>(u.hits) is Some
            && created_field::<i32>(u.hits_max) is Some
            && created_field::<bool>(u.notify_when_attacked) is Some
            && created_field::<Option<WallDecayTime>>(u.decay_time) is Some {
            Some(
                StructureWallView {
                    id: created_field::<String>(u.id)->0,
                    room: created_field::<RoomName>(u.room)->0,
                    x: created_field::<u32>(u.x)->0,
                    y: created_field::<u32>(u.y)->0,
                    hits: created_field::<i32>(u.hits)->0,
                    hits_max: created_field::<i32>(u.hits_max)->0,
                    notify_when_attacked: created_field::<bool>(u.notify_when_attacked)->0,
                    decay_time: created_field::<Option<WallDecayTime>>(u.decay_time)->0,
                },
            )
        } else {
            None
        }
    }

    fn apply_update(&mut self, update: StructureWallUpdate) {
        let StructureWallUpdate { id, room, x, y, hits, hits_max, notify_when_attacked, decay_time } = update;
        apply_field(&mut self.id, id);
        apply_field(&mut self.room, room);
        apply_field(&mut self.x, x);
        apply_field(&mut self.y, y);
        apply_field(&mut self.hits, hits);
        apply_field(&mut self.hits_max, hits_max);
        apply_field(&mut self.notify_when_attacked, notify_when_attacked);
        apply_field(&mut self.decay_time, decay_time);
    }

    fn create_from_update(update: StructureWallUpdate) -> (r: Option<StructureWall>) {
        let StructureWallUpdate { id, room, x, y, hits, hits_max, notify_when_attacked, decay_time } = update;
        let id = match id {
            Some(u) => match <String as Updatable>::create_from_update(u) {
                Some(v) => v,
                None => return None,
            },
            None => return None,
        };
        let room = match room {
            Some(u) => match <RoomName as Updatable>::create_from_update(u) {
                Some(v) => v,
                None => return None,
            },
            None => return None,
        };
        let x = match x {
            Some(u) => match <u32 as Updatable>::create_from_update(u) {
                Some(v) => v,
                None => return None,
            },
            None => return None,
        };
        let y = match y {
            Some(u) => match <u32 as Updatable>::create_from_update(u) {
                Some(v) => v,
                None => return None,
            },
            None => return None,
        };
        let hits = match hits {
            Some(u) => match <i32 as Updatable>::create_from_update(u) {
                Some(v) => v,
                None => return None,
            },
            None => return None,
        };
        let hits_max = match hits_max {
            Some(u) => match <i32 as Updatable>::create_from_update(u) {
                Some(v) => v,
                None => return None,
            },
            None => return None,
        };
        let notify_when_attacked = match notify_when_attacked {
            Some(u) => match <bool as Updatable>::create_from_update(u) {
                Some(v) => v,
                None => return None,
            },
            None => return None,
        };
        let decay_time = match decay_time {
            Some(u) => match <Option<WallDecayTime> as Updatable>::create_from_update(u) {
                Some(v) => v,
                None => return None,
            },
            None => return None,
        };
        Some(StructureWall { id, room, x, y, hits, hits_max, notify_when_attacked, decay_time })
    }
}

impl StructureWall {
    /// Updates this structure with all values present in the given update.
    pub fn update(&mut self, update: StructureWallUpdate)
        ensures
            final(self).deep_view() == <StructureWall as Updatable>::applied(
                old(self).deep_view(),
                update.deep_view(),
            ),
    {
        self.apply_update(update);
    }
}

} // verus!
