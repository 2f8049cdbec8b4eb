//! `Mineral` data description.
use vstd::prelude::*;

use crate::resources::ResourceType;
use crate::room_name::RoomName;
use crate::updatable::{Updatable, apply_field, applied_field, created_field};

verus! {

/// A mineral, an object creeps can mine for a non-energy resource.
#[derive(Clone, Debug, PartialEq)]
pub struct Mineral {
    /// Unique 'id' identifier for all game objects on a server.
    pub id: String,
    /// Room object is in.
    pub room: RoomName,
    /// X position within the room (0-50).
    pub x: u32,
    /// Y position within the room (0-50).
    pub y: u32,
    /// The 'density' value, dictating how much of the resource is added when the mineral regenerates.
    ///
    /// Changes each regeneration.
    pub density: u8,
    /// The current amount of the resource in the mineral, as the bit pattern of the
    /// 64-bit floating point number the server sends.
    pub mineral_amount_bits: u64,
    /// The type of resource this mineral has.
    pub mineral_type: ResourceType,
    /// The number of game ticks until the mineral next regenerates
    /// (or None if the mineral still has any resources left).
    pub next_regeneration_time: Option<u32>,
}

/// The abstract value of a `Mineral`.
pub struct MineralView {
    pub id: Seq<char>,
    pub room: RoomName,
    pub x: u32,
    pub y: u32,
    pub density: u8,
    pub mineral_amount_bits: u64,
    pub mineral_type: ResourceType,
    pub next_regeneration_time: Option<u32>,
}

/// The update structure for a mineral object.
///
/// Each field that is present replaces or updates the field of the same name.
#[derive(Clone, Debug, Default)]
pub struct MineralUpdate {
    pub id: Option<String>,
    pub room: Option<RoomName>,
    pub x: Option<u32>,
    pub y: Option<u32>,
    pub density: Option<u8>,
    pub mineral_amount_bits: Option<u64>,
    pub mineral_type: Option<ResourceType>,
    pub next_regeneration_time: Option<Option<u32>>,
}

/// The abstract value of a `MineralUpdate`.
pub struct MineralUpdateView {
    pub id: Option<Seq<char>>,
    pub room: Option<RoomName>,
    pub x: Option<u32>,
    pub y: Option<u32>,
    pub density: Option<u8>,
    pub mineral_amount_bits: Option<u64>,
    pub mineral_type: Option<ResourceType>,
    pub next_regeneration_time: Option<Option<u32>>,
}

impl DeepView for Mineral {
    type V = MineralView;

    open spec fn deep_view(&self) -> MineralView {
        MineralView {
            id: self.id.deep_view(),
            room: self.room.deep_view(),
            x: self.x.deep_view(),
            y: self.y.deep_view(),
            density: self.density.deep_view(),
            mineral_amount_bits: self.mineral_amount_bits.deep_view(),
            mineral_type: self.mineral_type.deep_view(),
            next_regeneration_time: self.next_regeneration_time.deep_view(),
        }
    }
}

impl DeepView for MineralUpdate {
    type V = MineralUpdateView;

    open spec fn deep_view(&self) -> MineralUpdateView {
        MineralUpdateView {
            id: self.id.deep_view(),
            room: self.room.deep_view(),
            x: self.x.deep_view(),
            y: self.y.deep_view(),
            density: self.density.deep_view(),
            mineral_amount_bits: self.mineral_amount_bits.deep_view(),
            mineral_type: self.mineral_type.deep_view(),
            next_regeneration_time: self.next_regeneration_time.deep_view(),
        }
    }
}

impl Updatable for Mineral {
    type Update = MineralUpdate;

    open spec fn applied(v: MineralView, u: MineralUpdateView) -> MineralView {
        MineralView {
            id: applied_field::<String>(v.id, u.id),
            room: applied_field::<RoomName>(v.room, u.room),
            x: applied_field::<u32>(v.x, u.x),
            y: applied_field::<u32>(v.y, u.y),
            density: applied_field::<u8>(v.density, u.density),
            mineral_amount_bits: applied_field::<u64>(v.mineral_amount_bits, u.mineral_amount_bits),
            mineral_type: applied_field::<ResourceType>(v.mineral_type, u.mineral_type),
            next_regeneration_time: applied_field::<Option<u32>>(v.next_regeneration_time, u.next_regeneration_time),
        }
    }

    open spec fn created(u: MineralUpdateView) -> Option<MineralView> {
        if created_field::<String>(u.id) is Some
            && created_field::<RoomName>(u.room) is Some
            && created_field::<u32>(u.x) is Some
            && created_field::<u32>(u.y) is Some
            && created_field::<u8>(u.density) is Some
            && created_field::<u64>(u.mineral_amount_bits) is Some
            && created_field::<ResourceType>(u.mineral_type) is Some
            && created_field::<Option<u32>>(u.next_regeneration_time) is Some {
            Some(
                MineralView {
                    id: created_field::<String>(u.id)->0,
                    room: created_field::<RoomName>(u.room)->0,
                    x: created_field::<u32>(u.x)->0,
                    y: created_field::<u32>(u.y)->0,
                    density: created_field::<u8>(u.density)->0,
                    mineral_amount_bits: created_field::<u64>(u.mineral_amount_bits)->0,
                    mineral_type: created_field::<ResourceType>(u.mineral_type)->0,
                    next_regeneration_time: created_field::<Option<u32>>(u.next_regeneration_time)->0,
                },
            )
        } else {
            None
        }
    }

    fn apply_update(&mut self, update: MineralUpdate) {
        let MineralUpdate { id, room, x, y, density, mineral_amount_bits, mineral_type, next_regeneration_time } = update;
        apply_field(&mut self.id, id);
        apply_field(&mut self.room, room);
        apply_field(&mut self.x, x);
        apply_field(&mut self.y, y);
        apply_field(&mut self.density, density);
        apply_field(&mut self.mineral_amount_bits, mineral_amount_bits);
        apply_field(&mut self.mineral_type, mineral_type);
        apply_field(&mut self.next_regeneration_time, next_regeneration_time);
    }

    fn create_from_update(update: MineralUpdate) -> (r: Option<Mineral>) {
        let MineralUpdate { id, room, x, y, density, mineral_amount_bits, mineral_type, next_regeneration_time } = update;
        let id = match id {
            Some(u) => match <String as Updatable>::create_from_update(u) {
                Some(v) => v,
                None => return None,
            },
            None => return None,
        };
        let room = match room {
            Some(u) => match <RoomName as Updatable>::create_from_update(u) {
                Some(v) => v,
                None => return None,
            },
            None => return None,
        };
        let x = match x {
            Some(u) => match <u32 as Updatable>::create_from_update(u) {
                Some(v) => v,
                None => return None,
            },
            None => return None,
        };
        let y = match y {
            Some(u) => match <u32 as Updatable>::create_from_update(u) {
                Some(v) => v,
                None => return None,
            },
            None => return None,
        };
        let density = match density {
            Some(u) => match <u8 as Updatable>::create_from_update(u) {
                Some(v) => v,
                None => return None,
            },
            None => return None,
        };
        let mineral_amount_bits = match mineral_amount_bits {
            Some(u) => match <u64 as Updatable>::create_from_update(u) {
                Some(v) => v,
                None => return None,
            },
            None => return None,
        };
        let mineral_type = match mineral_type {
            Some(u) => match <ResourceType as Updatable>::create_from_update(u) {
                Some(v) => v,
                None => return None,
            },
            None => return None,
        };
        let next_regeneration_time = match next_regeneration_time {
            Some(u) => match <Option<u32> as Updatable>::create_from_update(u) {
                Some(v) => v,
                None => return None,
            },
            None => return None,
        };
        Some(Mineral { id, room, x, y, density, mineral_amount_bits, mineral_type, next_regeneration_time })
    }
}

impl Mineral {
    /// Updates this structure with all values present in the given update.
    pub fn update(&mut self, update: MineralUpdate)
        ensures
            final(self).deep_view() == <Mineral as Updatable>::applied(
                old(self).deep_view(),
                update.deep_view(),
            ),
    {
        self.apply_update(update);
    }
}

} // verus!
