//! `Source` data description.
use vstd::prelude::*;

use crate::room_name::RoomName;
use crate::updatable::{Updatable, apply_field, applied_field, created_field};

verus! {

/// A source object, which creeps can gain energy by mining from.
#[derive(Clone, Debug, PartialEq)]
pub struct Source {
    /// Unique 'id' identifier for all game objects on a server.
    pub id: String,
    /// Room object is in.
    pub room: RoomName,
    /// X position within the room (0-50).
    pub x: u32,
    /// Y position within the room (0-50).
    pub y: u32,
    /// The source's current energy - available to be mined be creeps.
    pub energy: u32,
    /// The source's maximum energy - what `energy` resets to on regeneration.
    pub energy_capacity: u32,
    /// The amount of energy either harvested on this source specifically or for the room since
    /// the last invasion (not sure which it is).
    pub invader_harvested: u32,
    /// The game time at which the source will next regenerate. `None` when waiting on a creep to
    /// first harvest it.
    pub next_regeneration_time: Option<u32>,
    /// The number of ticks between when a source is first harvested after regeneration and when it next
    /// regenerates.
    pub ticks_to_regeneration: u32,
}

/// The abstract value of a `Source`.
pub struct SourceView {
    pub id: Seq<char>,
    pub room: RoomName,
    pub x: u32,
    pub y: u32,
    pub energy: u32,
    pub energy_capacity: u32,
    pub invader_harvested: u32,
    pub next_regeneration_time: Option<u32>,
    pub ticks_to_regeneration: u32,
}

/// The update structure for a source object.
///
/// Each field that is present replaces or updates the field of the same name.
#[derive(Clone, Debug, Default)]
pub struct SourceUpdate {
    pub id: Option<String>,
    pub room: Option<RoomName>,
    pub x: Option<u32>,
    pub y: Option<u32>,
    pub energy: Option<u32>,
    pub energy_capacity: Option<u32>,
    pub invader_harvested: Option<u32>,
    pub next_regeneration_time: Option<Option<u32>>,
    pub ticks_to_regeneration: Option<u32>,
}

/// The abstract value of a `SourceUpdate`.
pub struct SourceUpdateView {
    pub id: Option<Seq<char>>,
    pub room: Option<RoomName>,
    pub x: Option<u32>,
    pub y: Option<u32>,
    pub energy: Option<u32>,
    pub energy_capacity: Option<u32>,
    pub invader_harvested: Option<u32>,
    pub next_regeneration_time: Option<Option<u32>>,
    pub ticks_to_regeneration: Option<u32>,
}

impl DeepView for Source {
    type V = SourceView;

    open spec fn deep_view(&self) -> SourceView {
        SourceView {
            id: self.id.deep_view(),
            room: self.room.deep_view(),
            x: self.x.deep_view(),
            y: self.y.deep_view(),
            energy: self.energy.deep_view(),
            energy_capacity: self.energy_capacity.deep_view(),
            invader_harvested: self.invader_harvested.deep_view(),
            next_regeneration_time: self.next_regeneration_time.deep_view(),
            ticks_to_regeneration: self.ticks_to_regeneration.deep_view(),
        }
    }
}

impl DeepView for SourceUpdate {
    type V = SourceUpdateView;

    open spec fn deep_view(&self) -> SourceUpdateView {
        SourceUpdateView {
            id: self.id.deep_view(),
            room: self.room.deep_view(),
            x: self.x.deep_view(),
            y: self.y.deep_view(),
            energy: self.energy.deep_view(),
            energy_capacity: self.energy_capacity.deep_view(),
            invader_harvested: self.invader_harvested.deep_view(),
            next_regeneration_time: self.next_regeneration_time.deep_view(),
            ticks_to_regeneration: self.ticks_to_regeneration.deep_view(),
        }
    }
}

impl Updatable for Source {
    type Update = SourceUpdate;

    open spec fn applied(v: SourceView, u: SourceUpdateView) -> SourceView {
        SourceView {
            id: applied_field::<String>(v.id, u.id),
            room: applied_field::<RoomName>(v.room, u.room),
            x: applied_field::<u32>(v.x, u.x),
            y: applied_field::<u32>(v.y, u.y),
            energy: applied_field::<u32>(v.energy, u.energy),
            energy_capacity: applied_field::<u32>(v.energy_capacity, u.energy_capacity),
            invader_harvested: applied_field::<u32>(v.invader_harvested, u.invader_harvested),
            next_regeneration_time: applied_field::<Option<u32>>(v.next_regeneration_time, u.next_regeneration_time),
            ticks_to_regeneration: applied_field::<u32>(v.ticks_to_regeneration, u.ticks_to_regeneration),
        }
    }

    open spec fn created(u: SourceUpdateView) -> Option<SourceView> {
        if created_field::<String>(u.id) is Some
            && created_field::<RoomName>(u.room) is Some
            && created_field::<u32>(u.x) is Some
            && created_field::<u32>(u.y) is Some
            && created_field::<u32>(u.energy) is Some
            && created_field::<u32>(u.energy_capacity) is Some
            && created_field::<u32>(u.invader_harvested) is Some
            && created_field::<Option<u32>>(u.next_regeneration_time) is Some
            && created_field::<u32>(u.ticks_to_regeneration) is Some {
            Some(
                SourceView {
                    id: created_field::<String>(u.id)->0,
                    room: created_field::<RoomName>(u.room)->0,
                    x: created_field::<u32>(u.x)->0,
                    y: created_field::<u32>(u.y)->0,
                    energy: created_field::<u32>(u.energy)->0,
                    energy_capacity: created_field::<u32>(u.energy_capacity)->0,
                    invader_harvested: created_field::<u32>(u.invader_harvested)->0,
                    next_regeneration_time: created_field::<Option<u32>>(u.next_regeneration_time)->0,
                    ticks_to_regeneration: created_field::<u32>(u.ticks_to_regeneration)->0,
                },
            )
        } else {
            None
        }
    }

    fn apply_update(&mut self, update: SourceUpdate) {
        let SourceUpdate { id, room, x, y, energy, energy_capacity, invader_harvested, next_regeneration_time, ticks_to_regeneration } = update;
        apply_field(&mut self.id, id);
        apply_field(&mut self.room, room);
        apply_field(&mut self.x, x);
        apply_field(&mut self.y, y);
        apply_field(&mut self.energy, energy);
        apply_field(&mut self.energy_capacity, energy_capacity);
        apply_field(&mut self.invader_harvested, invader_harvested);
        apply_field(&mut self.next_regeneration_time, next_regeneration_time);
        apply_field(&mut self.ticks_to_regeneration, ticks_to_regeneration);
    }

    fn create_from_update(update: SourceUpdate) -> (r: Option<Source>) {
        let SourceUpdate { id, room, x, y, energy, energy_capacity, invader_harvested, next_regeneration_time, ticks_to_regeneration } = update;
        let id = match id {
            Some(u) => match <String as Updatable>::create_from_update(u) {
                Some(v) => v,
                None => return None,
            },
            None => return None,
        };
        let room = match room {
            Some(u) => match <RoomName as Updatable>::create_from_update(u) {
                Some(v) => v,
                None => return None,
            },
            None => return None,
        };
        let x = match x {
            Some(u) => match <u32 as Updatable>::create_from_update(u) {
                Some(v) => v,
                None => return None,
            },
            None => return None,
        };
        let y = match y {
            Some(u) => match <u32 as Updatable>::create_from_update(u) {
                Some(v) => v,
                None => return None,
            },
            None => return None,
        };
        let energy = match energy {
            Some(u) => match <u32 as Updatable>::create_from_update(u) {
                Some(v) => v,
                None => return None,
            },
            None => return None,
        };
        let energy_capacity = match energy_capacity {
            Some(u) => match <u32 as Updatable>::create_from_update(u) {
                Some(v) => v,
                None => return None,
            },
            None => return None,
        };
        let invader_harvested = match invader_harvested {
            Some(u) => match <u32 as Updatable>::create_from_update(u) {
                Some(v) => v,
                None => return None,
            },
            None => return None,
        };
        let next_regeneration_time = match next_regeneration_time {
            Some(u) => match <Option<u32> as Updatable>::create_from_update(u) {
                Some(v) => v,
                None => return None,
            },
            None => return None,
        };
        let ticks_to_regeneration = match ticks_to_regeneration {
            Some(u) => match <u32 as Updatable>::create_from_update(u) {
                Some(v) => v,
                None => return None,
            },
            None => return None,
        };
        Some(Source { id, room, x, y, energy, energy_capacity, invader_harvested, next_regeneration_time, ticks_to_regeneration })
    }
}

impl Source {
    /// Updates this structure with all values present in the given update.
    pub fn update(&mut self, update: SourceUpdate)
        ensures
            final(self).deep_view() == <Source as Updatable>::applied(
                old(self).deep_view(),
                update.deep_view(),
            ),
    {
        self.apply_update(update);
    }
}

} // verus!
