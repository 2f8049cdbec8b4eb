//! 
use vstd::prelude::*;

use crate::room_name::RoomName;
use crate::updatable::{Updatable, apply_field, applied_field, created_field, Timespec};

verus! {

/// The destination for a portal structure.
#[derive(Clone, Debug, PartialEq)]
pub struct PortalDestination {
    /// The room name the other side of this portal ends at.
    pub room: RoomName,
    /// The in-room X position of the other side of this portal.
    pub x: u16,
    /// The in-room Y position of the other side of this portal.
    pub y: u16,
}

/// The abstract value of a `PortalDestination`.
pub struct PortalDestinationView {
    pub room: RoomName,
    pub x: u16,
    pub y: u16,
}

/// The update structure for a portal destination.
///
/// Each field that is present replaces or updates the field of the same name.
#[derive(Clone, Debug, Default)]
pub struct PortalDestinationUpdate {
    pub room: Option<RoomName>,
    pub x: Option<u16>,
    pub y: Option<u16>,
}

/// The abstract value of a `PortalDestinationUpdate`.
pub struct PortalDestinationUpdateView {
    pub room: Option<RoomName>,
    pub x: Option<u16>,
    pub y: Option<u16>,
}

impl DeepView for PortalDestination {
    type V = PortalDestinationView;

    open spec fn deep_view(&self) -> PortalDestinationView {
        PortalDestinationView {
            room: self.room.deep_view(),
            x: self.x.deep_view(),
            y: self.y.deep_view(),
        }
    }
}

impl DeepView for PortalDestinationUpdate {
    type V = PortalDestinationUpdateView;

    open spec fn deep_view(&self) -> PortalDestinationUpdateView {
        PortalDestinationUpdateView {
            room: self.room.deep_view(),
            x: self.x.deep_view(),
            y: self.y.deep_view(),
        }
    }
}

impl Updatable for PortalDestination {
    type Update = PortalDestinationUpdate;

    open spec fn applied(v: PortalDestinationView, u: PortalDestinationUpdateView) -> PortalDestinationView {
        PortalDestinationView {
            room: applied_field::<RoomName>(v.room, u.room),
            x: applied_field::<u16>(v.x, u.x),
            y: applied_field::<u16>(v.y, u.y),
        }
    }

    open spec fn created(u: PortalDestinationUpdateView) -> Option<PortalDestinationView> {
        if created_field::<RoomName>(u.room) is Some
            && created_field::<u16>(u.x) is Some
            && created_field::<u16>(u.y) is Some {
            Some(
                PortalDestinationView {
                    room: created_field::<RoomName>(u.room)->0,
                    x: created_field::<u16>(u.x)->0,
                    y: created_field::<u16>(u.y)->0,
                },
            )
        } else {
            None
        }
    }

    fn apply_update(&mut self, update: PortalDestinationUpdate) {
        let PortalDestinationUpdate { room, x, y } = update;
        apply_field(&mut self.room, room);
        apply_field(&mut self.x, x);
        apply_field(&mut self.y, y);
    }

    fn create_from_update(update: PortalDestinationUpdate) -> (r: Option<PortalDestination>) {
        let PortalDestinationUpdate { room, x, y } = update;
        let room = match room {
            Some(u) => match <RoomName as Updatable>::create_from_update(u) {
                Some(v) => v,
                None => return None,
            },
            None => return None,
        };
        let x = match x {
            Some(u) => match <u16 as Updatable>::create_from_update(u) {
                Some(v) => v,
                None => return None,
            },
            None => return None,
        };
        let y = match y {
            Some(u) => match <u16 as Updatable>::create_from_update(u) {
                Some(v) => v,
                None => return None,
            },
            None => return None,
        };
        Some(PortalDestination { room, x, y })
    }
}

impl PortalDestination {
    /// Updates this structure with all values present in the given update.
    pub fn update(&mut self, update: PortalDestinationUpdate)
        ensures
            final(self).deep_view() == <PortalDestination as Updatable>::applied(
                old(self).deep_view(),
                update.deep_view(),
            ),
    {
        self.apply_update(update);
    }
}

/// A portal object, which creeps can use to exit this room into another room somewhere else.
#[derive(Clone, Debug, PartialEq)]
pub struct StructurePortal {
    /// Unique 'id' identifier for all game objects on a server.
    pub id: String,
    /// Room object is in.
    pub room: RoomName,
    /// X position within the room (0-50).
    pub x: u32,
    /// Y position within the room (0-50).
    pub y: u32,
    /// The date at which this portal will "destabilize" and start decaying. After this date passes, there will
    /// be a set number of ticks left for the portal to live.
    ///
    /// Will be None if this portal is already de-stable.
    pub unstable_date: Option<Timespec>,
    /// The game time at which this portal will no longer exist. This property will be None while the portal is
    /// still "stable" - see `unstable_date`.
    pub decay_time: Option<u32>,
    /// Where creeps entering this portal will end up.
    pub destination: PortalDestination,
}

/// The abstract value of a `StructurePortal`.
pub struct StructurePortalView {
    pub id: Seq<char>,
    pub room: RoomName,
    pub x: u32,
    pub y: u32,
    pub unstable_date: Option<Timespec>,
    pub decay_time: Option<u32>,
    pub destination: PortalDestinationView,
}

/// The update structure for a portal object.
///
/// Each field that is present replaces or updates the field of the same name.
#[derive(Clone, Debug, Default)]
pub struct StructurePortalUpdate {
    pub id: Option<String>,
    pub room: Option<RoomName>,
    pub x: Option<u32>,
    pub y: Option<u32>,
    pub unstable_date: Option<Option<Timespec>>,
    pub decay_time: Option<Option<u32>>,
    pub destination: Option<PortalDestinationUpdate>,
}

/// The abstract value of a `StructurePortalUpdate`.
pub struct StructurePortalUpdateView {
    pub id: Option<Seq<char>>,
    pub room: Option<RoomName>,
    pub x: Option<u32>,
    pub y: Option<u32>,
    pub unstable_date: Option<Option<Timespec>>,
    pub decay_time: Option<Option<u32>>,
    pub destination: Option<PortalDestinationUpdateView>,
}

impl DeepView for StructurePortal {
    type V = StructurePortalView;

    open spec fn deep_view(&self) -> StructurePortalView {
        StructurePortalView {
            id: self.id.deep_view(),
            room: self.room.deep_view(),
            x: self.x.deep_view(),
            y: self.y.deep_view(),
            unstable_date: self.unstable_date.deep_view(),
            decay_time: self.decay_time.deep_view(),
            destination: self.destination.deep_view(),
        }
    }
}

impl DeepView for StructurePortalUpdate {
    type V = StructurePortalUpdateView;

    open spec fn deep_view(&self) -> StructurePortalUpdateView {
        StructurePortalUpdateView {
            id: self.id.deep_view(),
            room: self.room.deep_view(),
            x: self.x.deep_view(),
            y: self.y.deep_view(),
            unstable_date: self.unstable_date.deep_view(),
            decay_time: self.decay_time.deep_view(),
            destination: self.destination.deep_view(),
        }
    }
}

impl Updatable for StructurePortal {
    type Update = StructurePortalUpdate;

    open spec fn applied(v: StructurePortalView, u: StructurePortalUpdateView) -> StructurePortalView {
        StructurePortalView {
            id: applied_field::<String>(v.id, u.id),
            room: applied_field::<RoomName>(v.room, u.room),
            x: applied_field::<u32>(v.x, u.x),
            y: applied_field::<u32>(v.y, u.y),
            unstable_date: applied_field::<Option<Timespec>>(v.unstable_date, u.unstable_date),
            decay_time: applied_field::<Option<u32>>(v.decay_time, u.decay_time),
            destination: applied_field::<PortalDestination>(v.destination, u.destination),
        }
    }

    open spec fn created(u: StructurePortalUpdateView) -> Option<StructurePortalView> {
        if created_field::<String>(u.id) is Some
            && created_field::<RoomName>(u.room) is Some
            && created_field::<u32>(u.x) is Some
            && created_field::<u32>(u.y) is Some
            && created_field::<Option<Timespec>>(u.unstable_date) is Some
            && created_field::<Option<u32>>(u.decay_time) is Some
            && created_field::<PortalDestination>(u.destination) is Some {
            Some(
                StructurePortalView {
                    id: created_field::<String>(u.id)->0,
                    room: created_field::<RoomName>(u.room)->0,
                    x: created_field::<u32>(u.x)->0,
                    y: created_field::<u32>(u.y)->0,
                    unstable_date: created_field::<Option<Timespec>>(u.unstable_date)->0,
                    decay_time: created_field::<Option<u32>>(u.decay_time)->0,
                    destination: created_field::<PortalDestination>(u.destination)->0,
                },
            )
        } else {
            None
        }
    }

    fn apply_update(&mut self, update: StructurePortalUpdate) {
        let StructurePortalUpdate { id, room, x, y, unstable_date, decay_time, destination } = update;
        apply_field(&mut self.id, id);
        apply_field(&mut self.room, room);
        apply_field(&mut self.x, x);
        apply_field(&mut self.y, y);
        apply_field(&mut self.unstable_date, unstable_date);
        apply_field(&mut self.decay_time, decay_time);
        apply_field(&mut self.destination, destination);
    }

    fn create_from_update(update: StructurePortalUpdate) -> (r: Option<StructurePortal>) {
        let StructurePortalUpdate { id, room, x, y, unstable_date, decay_time, destination } = update;
        let id = match id {
            Some(u) => match <String as Updatable>::create_from_update(u) {
                Some(v) => v,
                None => return None,
            },
            None => return None,
        };
        let room = match room {
            Some(u) => match <RoomName as Updatable>::create_from_update(u) {
                Some(v) => v,
                None => return None,
            },
            None => return None,
        };
        let x = match x {
            Some(u) => match <u32 as Updatable>::create_from_update(u) {
                Some(v) => v,
                None => return None,
            },
            None => return None,
        };
        let y = match y {
            Some(u) => match <u32 as Updatable>::create_from_update(u) {
                Some(v) => v,
                None => return None,
            },
            None => return None,
        };
        let unstable_date = match unstable_date {
            Some(u) => match <Option<Timespec> as Updatable>::create_from_update(u) {
                Some(v) => v,
                None => return None,
            },
            None => return None,
        };
        let decay_time = match decay_time {
            Some(u) => match <Option<u32> as Updatable>::create_from_update(u) {
                Some(v) => v,
                None => return None,
            },
            None => return None,
        };
        let destination = match destination {
            Some(u) => match <PortalDestination as Updatable>::create_from_update(u) {
                Some(v) => v,
                None => return None,
            },
            None => return None,
        };
        Some(StructurePortal { id, room, x, y, unstable_date, decay_time, destination })
    }
}

impl StructurePortal {
    /// Updates this structure with all values present in the given update.
    pub fn update(&mut self, update: StructurePortalUpdate)
        ensures
            final(self).deep_view() == <StructurePortal as Updatable>::applied(
                old(self).deep_view(),
                update.deep_view(),
            ),
    {
        self.apply_update(update);
    }
}

} // verus!
