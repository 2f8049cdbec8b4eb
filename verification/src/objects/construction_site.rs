//! `ConstructionSite` data description.
use vstd::prelude::*;

use crate::room_name::RoomName;
use crate::updatable::{Updatable, apply_field, applied_field, created_field};
use super::container::StructureContainer;
use super::controller::StructureController;
use super::extension::StructureExtension;
use super::extractor::StructureExtractor;
use super::keeper_lair::StructureKeeperLair;
use super::lab::StructureLab;
use super::link::StructureLink;
use super::nuker::StructureNuker;
use super::observer::StructureObserver;
use super::portal::StructurePortal;
use super::power_bank::StructurePowerBank;
use super::power_spawn::StructurePowerSpawn;
use super::rampart::StructureRampart;
use super::spawn::StructureSpawn;
use super::storage::StructureStorage;
use super::terminal::StructureTerminal;
use super::tower::StructureTower;
use super::wall::StructureWall;

verus! {

/// Type of structure (not general room object).
///
/// Currently only used when decoding ConstructionSites.
#[derive(Copy, Clone, Debug, PartialEq, Eq, PartialOrd, Ord, Hash, Structural)]
pub enum StructureType {
    /// StructureSpawn structure type
    Spawn,
    /// StructureExtension structure type
    Extension,
    /// Road structure type
    Road,
    /// StructureWall structure type
    ConstructedWall,
    /// StructureRampart structure type
    Rampart,
    /// StructureKeeperLair structure type
    KeeperLair,
    /// StructurePortal structure type
    Portal,
    /// StructureController structure type
    Controller,
    /// StructureLink structure type
    Link,
    /// StructureStorage structure type
    Storage,
    /// StructureTower structure type
    Tower,
    /// StructureObserver structure type
    Observer,
    /// StructurePowerBank structure type
    PowerBank,
    /// StructurePowerSpawn structure type
    PowerSpawn,
    /// StructureExtractor structure type
    Extractor,
    /// StructureLab structure type
    Lab,
    /// StructureTerminal structure type
    Terminal,
    /// StructureContainer structure type
    Container,
    /// StructureNuker structure type
    Nuker,
}

impl DeepView for StructureType {
    type V = StructureType;

    open spec fn deep_view(&self) -> StructureType {
        *self
    }
}

impl Updatable for StructureType {
    type Update = StructureType;

    open spec fn applied(v: StructureType, u: StructureType) -> StructureType {
        u
    }

    open spec fn created(u: StructureType) -> Option<StructureType> {
        Some(u)
    }

    fn apply_update(&mut self, update: StructureType) {
        *self = update;
    }

    fn create_from_update(update: StructureType) -> (r: Option<StructureType>) {
        Some(update)
    }
}


/// A construction site - a planned structure
#[derive(Clone, Debug, PartialEq)]
pub struct ConstructionSite {
    /// Unique 'id' identifier for all game objects on a server.
    pub id: String,
    /// Room object is in.
    pub room: RoomName,
    /// X position within the room (0-50).
    pub x: u32,
    /// Y position within the room (0-50).
    pub y: u32,
    /// The user ID of the owner of the creep
    pub user: String,
    /// A name the structure will have once built (only for spawns)
    pub name: Option<String>,
    /// Progress on the construction site
    pub progress: u32,
    /// Total progress needed
    pub progress_total: u32,
    /// Structure type
    pub structure_type: StructureType,
}

/// The abstract value of a `ConstructionSite`.
pub struct ConstructionSiteView {
    pub id: Seq<char>,
    pub room: RoomName,
    pub x: u32,
    pub y: u32,
    pub user: Seq<char>,
    pub name: Option<Seq<char>>,
    pub progress: u32,
    pub progress_total: u32,
    pub structure_type: StructureType,
}

/// The update structure for a `ConstructionSite`.
///
/// Each field that is present replaces or updates the field of the same name.
#[derive(Clone, Debug, Default)]
pub struct ConstructionSiteUpdate {
    pub id: Option<String>,
    pub room: Option<RoomName>,
    pub x: Option<u32>,
    pub y: Option<u32>,
    pub user: Option<String>,
    pub name: Option<Option<String>>,
    pub progress: Option<u32>,
    pub progress_total: Option<u32>,
    pub structure_type: Option<StructureType>,
}

/// The abstract value of a `ConstructionSiteUpdate`.
pub struct ConstructionSiteUpdateView {
    pub id: Option<Seq<char>>,
    pub room: Option<RoomName>,
    pub x: Option<u32>,
    pub y: Option<u32>,
    pub user: Option<Seq<char>>,
    pub name: Option<Option<Seq<char>>>,
    pub progress: Option<u32>,
    pub progress_total: Option<u32>,
    pub structure_type: Option<StructureType>,
}

impl DeepView for ConstructionSite {
    type V = ConstructionSiteView;

    open spec fn deep_view(&self) -> ConstructionSiteView {
        ConstructionSiteView {
            id: self.id.deep_view(),
            room: self.room.deep_view(),
            x: self.x.deep_view(),
            y: self.y.deep_view(),
            user: self.user.deep_view(),
            name: self.name.deep_view(),
            progress: self.progress.deep_view(),
            progress_total: self.progress_total.deep_view(),
            structure_type: self.structure_type.deep_view(),
        }
    }
}

impl DeepView for ConstructionSiteUpdate {
    type V = ConstructionSiteUpdateView;

    open spec fn deep_view(&self) -> ConstructionSiteUpdateView {
        ConstructionSiteUpdateView {
            id: self.id.deep_view(),
            room: self.room.deep_view(),
            x: self.x.deep_view(),
            y: self.y.deep_view(),
            user: self.user.deep_view(),
            name: self.name.deep_view(),
            progress: self.progress.deep_view(),
            progress_total: self.progress_total.deep_view(),
            structure_type: self.structure_type.deep_view(),
        }
    }
}

impl Updatable for ConstructionSite {
    type Update = ConstructionSiteUpdate;

    open spec fn applied(v: ConstructionSiteView, u: ConstructionSiteUpdateView) -> ConstructionSiteView {
        ConstructionSiteView {
            id: applied_field::<String>(v.id, u.id),
            room: applied_field::<RoomName>(v.room, u.room),
            x: applied_field::<u32>(v.x, u.x),
            y: applied_field::<u32>(v.y, u.y),
            user: applied_field::<String>(v.user, u.user),
            name: applied_field::<Option<String>>(v.name, u.name),
            progress: applied_field::<u32>(v.progress, u.progress),
            progress_total: applied_field::<u32>(v.progress_total, u.progress_total),
            structure_type: applied_field::<StructureType>(v.structure_type, u.structure_type),
        }
    }

    open spec fn created(u: ConstructionSiteUpdateView) -> Option<ConstructionSiteView> {
        if created_field::<String>(u.id) is Some
            && created_field::<RoomName>(u.room) is Some
            && created_field::<u32>(u.x) is Some
            && created_field::<u32>(u.y) is Some
            && created_field::<String>(u.user) is Some
            && created_field::<Option<String>>(u.name) is Some
            && created_field::<u32>(u.progress) is Some
            && created_field::<u32>(u.progress_total) is Some
            && created_field::<StructureType>(u.structure_type) is Some {
            Some(
                ConstructionSiteView {
                    id: created_field::<String>(u.id)->0,
                    room: created_field::<RoomName>(u.room)->0,
                    x: created_field::<u32>(u.x)->0,
                    y: created_field::<u32>(u.y)->0,
                    user: created_field::<String>(u.user)->0,
                    name: created_field::<Option<String>>(u.name)->0,
                    progress: created_field::<u32>(u.progress)->0,
                    progress_total: created_field::<u32>(u.progress_total)->0,
                    structure_type: created_field::<StructureType>(u.structure_type)->0,
                },
            )
        } else {
            None
        }
    }

    fn apply_update(&mut self, update: ConstructionSiteUpdate) {
        let ConstructionSiteUpdate { id, room, x, y, user, name, progress, progress_total, structure_type } = update;
        apply_field(&mut self.id, id);
        apply_field(&mut self.room, room);
        apply_field(&mut self.x, x);
        apply_field(&mut self.y, y);
        apply_field(&mut self.user, user);
        apply_field(&mut self.name, name);
        apply_field(&mut self.progress, progress);
        apply_field(&mut self.progress_total, progress_total);
        apply_field(&mut self.structure_type, structure_type);
    }

    fn create_from_update(update: ConstructionSiteUpdate) -> (r: Option<ConstructionSite>) {
        let ConstructionSiteUpdate { id, room, x, y, user, name, progress, progress_total, structure_type } = update;
        let id = match id {
            Some(u) => match <String as Updatable>::create_from_update(u) {
                Some(v) => v,
                None => return None,
            },
            None => return None,
        };
        let room = match room {
            Some(u) => match <RoomName as Updatable>::create_from_update(u) {
                Some(v) => v,
                None => return None,
            },
            None => return None,
        };
        let x = match x {
            Some(u) => match <u32 as Updatable>::create_from_update(u) {
                Some(v) => v,
                None => return None,
            },
            None => return None,
        };
        let y = match y {
            Some(u) => match <u32 as Updatable>::create_from_update(u) {
                Some(v) => v,
                None => return None,
            },
            None => return None,
        };
        let user = match user {
            Some(u) => match <String as Updatable>::create_from_update(u) {
                Some(v) => v,
                None => return None,
            },
            None => return None,
        };
        let name = match name {
            Some(u) => match <Option<String> as Updatable>::create_from_update(u) {
                Some(v) => v,
                None => return None,
            },
            None => return None,
        };
        let progress = match progress {
            Some(u) => match <u32 as Updatable>::create_from_update(u) {
                Some(v) => v,
                None => return None,
            },
            None => return None,
        };
        let progress_total = match progress_total {
            Some(u) => match <u32 as Updatable>::create_from_update(u) {
                Some(v) => v,
                None => return None,
            },
            None => return None,
        };
        let structure_type = match structure_type {
            Some(u) => match <StructureType as Updatable>::create_from_update(u) {
                Some(v) => v,
                None => return None,
            },
            None => return None,
        };
        Some(ConstructionSite { id, room, x, y, user, name, progress, progress_total, structure_type })
    }
}

impl ConstructionSite {
    /// Updates this structure with all values present in the given update.
    pub fn update(&mut self, update: ConstructionSiteUpdate)
        ensures
            final(self).deep_view() == <ConstructionSite as Updatable>::applied(
                old(self).deep_view(),
                update.deep_view(),
            ),
    {
        self.apply_update(update);
    }
}

} // verus!
