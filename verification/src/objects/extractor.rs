//! `StructureExtractor` data description.
use vstd::prelude::*;

use crate::room_name::RoomName;
use crate::updatable::{Updatable, apply_field, applied_field, created_field};

verus! {

/// An extractor structure - a structure that can be used to harvest minerals.
#[derive(Clone, Debug, PartialEq)]
pub struct StructureExtractor {
    /// Unique 'id' identifier for all game objects on a server.
    pub id: String,
    /// Room object is in.
    pub room: RoomName,
    /// X position within the room (0-50).
    pub x: u32,
    /// Y position within the room (0-50).
    pub y: u32,
    /// The current number of hit-points this structure has.
    pub hits: i32,
    /// The maximum number of hit-points this structure has.
    pub hits_max: i32,
    /// The user ID of the owner of this structure.
    pub user: String,
    /// Whether or not this structure is non-functional due to a degraded controller.
    pub disabled: bool,
    /// Whether or not an attack on this structure will send an email to the owner automatically.
    pub notify_when_attacked: bool,
}

/// The abstract value of a `StructureExtractor`.
pub struct StructureExtractorView {
    pub id: Seq<char>,
    pub room: RoomName,
    pub x: u32,
    pub y: u32,
    pub hits: i32,
    pub hits_max: i32,
    pub user: Seq<char>,
    pub disabled: bool,
    pub notify_when_attacked: bool,
}

/// The update structure for an extension structure.
///
/// Each field that is present replaces or updates the field of the same name.
#[derive(Clone, Debug, Default)]
pub struct StructureExtractorUpdate {
    pub id: Option<String>,
    pub room: Option<RoomName>,
    pub x: Option<u32>,
    pub y: Option<u32>,
    pub hits: Option<i32>,
    pub hits_max: Option<i32>,
    pub user: Option<String>,
    pub disabled: Option<bool>,
    pub notify_when_attacked: Option<bool>,
}

/// The abstract value of a `StructureExtractorUpdate`.
pub struct StructureExtractorUpdateView {
    pub id: Option<Seq<char>>,
    pub room: Option<RoomName>,
    pub x: Option<u32>,
    pub y: Option<u32>,
    pub hits: Option<i32>,
    pub hits_max: Option<i32>,
    pub user: Option<Seq<char>>,
    pub disabled: Option<bool>,
    pub notify_when_attacked: Option<bool>,
}

impl DeepView for StructureExtractor {
    type V = StructureExtractorView;

    open spec fn deep_view(&self) -> StructureExtractorView {
        StructureExtractorView {
            id: self.id.deep_view(),
            room: self.room.deep_view(),
            x: self.x.deep_view(),
            y: self.y.deep_view(),
            hits: self.hits.deep_view(),
            hits_max: self.hits_max.deep_view(),
            user: self.user.deep_view(),
            disabled: self.disabled.deep_view(),
            notify_when_attacked: self.notify_when_attacked.deep_view(),
        }
    }
}

impl DeepView for StructureExtractorUpdate {
    type V = StructureExtractorUpdateView;

    open spec fn deep_view(&self) -> StructureExtractorUpdateView {
        StructureExtractorUpdateView {
            id: self.id.deep_view(),
            room: self.room.deep_view(),
            x: self.x.deep_view(),
            y: self.y.deep_view(),
            hits: self.hits.deep_view(),
            hits_max: self.hits_max.deep_view(),
            user: self.user.deep_view(),
            disabled: self.disabled.deep_view(),
            notify_when_attacked: self.notify_when_attacked.deep_view(),
        }
    }
}

impl Updatable for StructureExtractor {
    type Update = StructureExtractorUpdate;

    open spec fn applied(v: StructureExtractorView, u: StructureExtractorUpdateView) -> StructureExtractorView {
        StructureExtractorView {
            id: applied_field::<String>(v.id, u.id),
            room: applied_field::<RoomName>(v.room, u.room),
            x: applied_field::<u32>(v.x, u.x),
            y: applied_field::<u32>(v.y, u.y),
            hits: applied_field::<i32>(v.hits, u.hits),
            hits_max: applied_field::<i32>(v.hits_max, u.hits_max),
            user: applied_field::<String>(v.user, u.user),
            disabled: applied_field::<bool>(v.disabled, u.disabled),
            notify_when_attacked: applied_field::<bool>(v.notify_when_attacked, u.notify_when_attacked),
        }
    }

    open spec fn created(u: StructureExtractorUpdateView) -> Option<StructureExtractorView> {
        if created_field::<String>(u.id) is Some
            && created_field::<RoomName>(u.room) is Some
            && created_field::<u32>(u.x) is Some
            && created_field::<u32>(u.y) is Some
            && created_field::<i32>(u.hits) is Some
            && created_field::<i32>(u.hits_max) is Some
            && created_field::<String>(u.user) is Some
            && created_field::<bool>(u.disabled) is Some
            && created_field::<bool>(u.notify_when_attacked) is Some {
            Some(
                StructureExtractorView {
                    id: created_field::<String>(u.id)->0,
                    room: created_field::<RoomName>(u.room)->0,
                    x: created_field::<u32>(u.x)->0,
                    y: created_field::<u32>(u.y)->0,
                    hits: created_field::<i32>(u.hits)->0,
                    hits_max: created_field::<i32>(u.hits_max)->0,
                    user: created_field::<String>(u.user)->0,
                    disabled: created_field::<bool>(u.disabled)->0,
                    notify_when_attacked: created_field::<bool>(u.notify_when_attacked)->0,
                },
            )
        } else {
            None
        }
    }

    fn apply_update(&mut self, update: StructureExtractorUpdate) {
        let StructureExtractorUpdate { id, room, x, y, hits, hits_max, user, disabled, notify_when_attacked } = update;
        apply_field(&mut self.id, id);
        apply_field(&mut self.room, room);
        apply_field(&mut self.x, x);
        apply_field(&mut self.y, y);
        apply_field(&mut self.hits, hits);
        apply_field(&mut self.hits_max, hits_max);
        apply_field(&mut self.user, user);
        apply_field(&mut self.disabled, disabled);
        apply_field(&mut self.notify_when_attacked, notify_when_attacked);
    }

    fn create_from_update(update: StructureExtractorUpdate) -> (r: Option<StructureExtractor>) {
        let StructureExtractorUpdate { id, room, x, y, hits, hits_max, user, disabled, notify_when_attacked } = update;
        let id = match id {
            Some(u) => match <String as Updatable>::create_from_update(u) {
                Some(v) => v,
                None => return None,
            },
            None => return None,
        };
        let room = match room {
            Some(u) => match <RoomName as Updatable>::create_from_update(u) {
                Some(v) => v,
                None => return None,
            },
            None => return None,
        };
        let x = match x {
            Some(u) => match <u32 as Updatable>::create_from_update(u) {
                Some(v) => v,
                None => return None,
            },
            None => return None,
        };
        let y = match y {
            Some(u) => match <u32 as Updatable>::create_from_update(u) {
                Some(v) => v,
                None => return None,
            },
            None => return None,
        };
        let hits = match hits {
            Some(u) => match <i32 as Updatable>::create_from_update(u) {
                Some(v) => v,
                None => return None,
            },
            None => return None,
        };
        let hits_max = match hits_max {
            Some(u) => match <i32 as Updatable>::create_from_update(u) {
                Some(v) => v,
                None => return None,
            },
            None => return None,
        };
        let user = match user {
            Some(u) => match <String as Updatable>::create_from_update(u) {
                Some(v) => v,
                None => return None,
            },
            None => return None,
        };
        let disabled = match disabled {
            Some(u) => match <bool as Updatable>::create_from_update(u) {
                Some(v) => v,
                None => return None,
            },
            None => return None,
        };
        let notify_when_attacked = match notify_when_attacked {
            Some(u) => match <bool as Updatable>::create_from_update(u) {
                Some(v) => v,
                None => return None,
            },
            None => return None,
        };
        Some(StructureExtractor { id, room, x, y, hits, hits_max, user, disabled, notify_when_attacked })
    }
}

impl StructureExtractor {
    /// Updates this structure with all values present in the given update.
    pub fn update(&mut self, update: StructureExtractorUpdate)
        ensures
            final(self).deep_view() == <StructureExtractor as Updatable>::applied(
                old(self).deep_view(),
                update.deep_view(),
            ),
    {
        self.apply_update(update);
    }
}

} // verus!
