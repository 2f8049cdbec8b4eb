//! Room object parsing.
//!
//! Each kind of room object has a structure of its own, and an update structure with the
//! same fields, each optional, that the server sends when some of them change.
pub mod construction_site;
pub mod container;
pub mod controller;
pub mod creep;
pub mod extension;
pub mod extractor;
pub mod keeper_lair;
pub mod lab;
pub mod link;
pub mod mineral;
pub mod nuker;
pub mod observer;
pub mod portal;
pub mod power_bank;
pub mod power_creep;
pub mod power_spawn;
pub mod rampart;
pub mod resource;
pub mod road;
pub mod shared;
pub mod source;
pub mod spawn;
pub mod storage;
pub mod terminal;
pub mod tombstone;
pub mod tower;
pub mod wall;

use vstd::prelude::*;

use crate::room_name::RoomName;
use crate::updatable::Updatable;
pub use self::construction_site::{ConstructionSite, ConstructionSiteUpdate, ConstructionSiteUpdateView, ConstructionSiteView, StructureType};
pub use self::container::{StructureContainer, StructureContainerUpdate, StructureContainerUpdateView, StructureContainerView};
pub use self::controller::{ControllerReservation, ControllerReservationUpdate, ControllerReservationUpdateView, ControllerReservationView, RoomSign, RoomSignUpdate, RoomSignUpdateView, RoomSignView, StructureController, StructureControllerUpdate, StructureControllerUpdateView, StructureControllerView, progress_required_for, total_downgrade_time_for};
pub use self::creep::{Creep, CreepActions, CreepActionsUpdate, CreepActionsUpdateView, CreepActionsView, CreepMessage, CreepMessageUpdate, CreepMessageUpdateView, CreepMessageView, CreepPart, CreepPartType, CreepPartUpdate, CreepPartUpdateView, CreepPartView, CreepUpdate, CreepUpdateView, CreepView};
pub use self::extension::{StructureExtension, StructureExtensionUpdate, StructureExtensionUpdateView, StructureExtensionView};
pub use self::extractor::{StructureExtractor, StructureExtractorUpdate, StructureExtractorUpdateView, StructureExtractorView};
pub use self::keeper_lair::{StructureKeeperLair, StructureKeeperLairUpdate, StructureKeeperLairUpdateView, StructureKeeperLairView};
pub use self::lab::{LabActionTarget, LabActionTargetUpdate, LabActionTargetUpdateView, LabActionTargetView, StructureLab, StructureLabActions, StructureLabActionsUpdate, StructureLabActionsUpdateView, StructureLabActionsView, StructureLabUpdate, StructureLabUpdateView, StructureLabView};
pub use self::link::{StructureLink, StructureLinkActions, StructureLinkActionsUpdate, StructureLinkActionsUpdateView, StructureLinkActionsView, StructureLinkUpdate, StructureLinkUpdateView, StructureLinkView};
pub use self::mineral::{Mineral, MineralUpdate, MineralUpdateView, MineralView};
pub use self::nuker::{StructureNuker, StructureNukerUpdate, StructureNukerUpdateView, StructureNukerView};
pub use self::observer::{StructureObserver, StructureObserverUpdate, StructureObserverUpdateView, StructureObserverView};
pub use self::portal::{PortalDestination, PortalDestinationUpdate, PortalDestinationUpdateView, PortalDestinationView, StructurePortal, StructurePortalUpdate, StructurePortalUpdateView, StructurePortalView};
pub use self::power_bank::{StructurePowerBank, StructurePowerBankUpdate, StructurePowerBankUpdateView, StructurePowerBankView};
pub use self::power_creep::{PowerCreep, PowerCreepActions, PowerCreepActionsUpdate, PowerCreepActionsUpdateView, PowerCreepActionsView, PowerCreepUpdate, PowerCreepUpdateView, PowerCreepView};
pub use self::power_spawn::{StructurePowerSpawn, StructurePowerSpawnUpdate, StructurePowerSpawnUpdateView, StructurePowerSpawnView};
pub use self::rampart::{StructureRampart, StructureRampartUpdate, StructureRampartUpdateView, StructureRampartView};
pub use self::resource::{Resource, ResourceError, ResourceField, ResourceFieldName, ResourceFieldValue, ResourceFieldValueView, ResourceFields, ResourceFieldsView, ResourceUpdate, ResourceUpdateFieldValue, ResourceUpdateFields, ResourceUpdateView, ResourceView, fields_accepted, fields_finished, resource_field_matches, update_fields_accepted};
pub use self::road::{StructureRoad, StructureRoadUpdate, StructureRoadUpdateView, StructureRoadView};
pub use self::shared::{ActionLogTarget, ActionLogTargetUpdate, ActionLogTargetUpdateView, ActionLogTargetView};
pub use self::source::{Source, SourceUpdate, SourceUpdateView, SourceView};
pub use self::spawn::{SpawningCreep, SpawningCreepUpdate, SpawningCreepUpdateView, SpawningCreepView, StructureSpawn, StructureSpawnUpdate, StructureSpawnUpdateView, StructureSpawnView};
pub use self::storage::{StructureStorage, StructureStorageUpdate, StructureStorageUpdateView, StructureStorageView};
pub use self::terminal::{StructureTerminal, StructureTerminalUpdate, StructureTerminalUpdateView, StructureTerminalView};
pub use self::tombstone::{Tombstone, TombstoneUpdate, TombstoneUpdateView, TombstoneView};
pub use self::tower::{StructureTower, StructureTowerActions, StructureTowerActionsUpdate, StructureTowerActionsUpdateView, StructureTowerActionsView, StructureTowerUpdate, StructureTowerUpdateView, StructureTowerView};
pub use self::wall::{StructureWall, StructureWallUpdate, StructureWallUpdateView, StructureWallView, WallDecayTime, WallDecayTimeUpdate, WallDecayTimeUpdateView, WallDecayTimeView};

verus! {

/// Enum describing all known room objects.
#[derive(Clone, Debug, PartialEq)]
pub enum KnownRoomObject {
    /// Source object.
    Source(Source),
    /// Mineral object.
    Mineral(Mineral),
    /// Spawn owned structure.
    Spawn(StructureSpawn),
    /// Extension owned structure.
    Extension(StructureExtension),
    /// Extractor owned structure.
    Extractor(StructureExtractor),
    /// Wall unowned structure.
    Wall(StructureWall),
    /// Road unowned structure.
    Road(StructureRoad),
    /// Rampart owned structure.
    Rampart(StructureRampart),
    /// Keeper Lair NPC structure.
    KeeperLair(StructureKeeperLair),
    /// Controller permanent structure.
    Controller(StructureController),
    /// Portal naturally occurring structure.
    Portal(StructurePortal),
    /// Link owned structure.
    Link(StructureLink),
    /// Storage owned structure.
    Storage(StructureStorage),
    /// Tower owned structure.
    Tower(StructureTower),
    /// Observer owned structure.
    Observer(StructureObserver),
    /// Power bank naturally occurring structure.
    PowerBank(StructurePowerBank),
    /// Power spawn owned structure.
    PowerSpawn(StructurePowerSpawn),
    /// Power creep.
    PowerCreep(PowerCreep),
    /// Lab owned structure.
    Lab(StructureLab),
    /// Terminal owned structure.
    Terminal(StructureTerminal),
    /// Container unowned structure.
    Container(StructureContainer),
    /// Nuker owned structure.
    Nuker(StructureNuker),
    /// Tombstone structure
    Tombstone(Tombstone),
    /// Creep
    Creep(Creep),
    /// Resource
    Resource(Resource),
    /// Construction site
    ConstructionSite(ConstructionSite),
}

/// An update for a known room object, of the kind of object it updates.
#[derive(Clone, Debug)]
pub enum KnownRoomObjectUpdate {
    /// An update for: source object.
    Source(SourceUpdate),
    /// An update for: mineral object.
    Mineral(MineralUpdate),
    /// An update for: spawn owned structure.
    Spawn(StructureSpawnUpdate),
    /// An update for: extension owned structure.
    Extension(StructureExtensionUpdate),
    /// An update for: extractor owned structure.
    Extractor(StructureExtractorUpdate),
    /// An update for: wall unowned structure.
    Wall(StructureWallUpdate),
    /// An update for: road unowned structure.
    Road(StructureRoadUpdate),
    /// An update for: rampart owned structure.
    Rampart(StructureRampartUpdate),
    /// An update for: keeper Lair NPC structure.
    KeeperLair(StructureKeeperLairUpdate),
    /// An update for: controller permanent structure.
    Controller(StructureControllerUpdate),
    /// An update for: portal naturally occurring structure.
    Portal(StructurePortalUpdate),
    /// An update for: link owned structure.
    Link(StructureLinkUpdate),
    /// An update for: storage owned structure.
    Storage(StructureStorageUpdate),
    /// An update for: tower owned structure.
    Tower(StructureTowerUpdate),
    /// An update for: observer owned structure.
    Observer(StructureObserverUpdate),
    /// An update for: power bank naturally occurring structure.
    PowerBank(StructurePowerBankUpdate),
    /// An update for: power spawn owned structure.
    PowerSpawn(StructurePowerSpawnUpdate),
    /// An update for: power creep.
    PowerCreep(PowerCreepUpdate),
    /// An update for: lab owned structure.
    Lab(StructureLabUpdate),
    /// An update for: terminal owned structure.
    Terminal(StructureTerminalUpdate),
    /// An update for: container unowned structure.
    Container(StructureContainerUpdate),
    /// An update for: nuker owned structure.
    Nuker(StructureNukerUpdate),
    /// An update for: tombstone structure
    Tombstone(TombstoneUpdate),
    /// An update for: creep
    Creep(CreepUpdate),
    /// An update for: resource
    Resource(ResourceUpdate),
    /// An update for: construction site
    ConstructionSite(ConstructionSiteUpdate),
}

/// The abstract value of a `KnownRoomObject`.
pub enum KnownRoomObjectView {
    Source(SourceView),
    Mineral(MineralView),
    Spawn(StructureSpawnView),
    Extension(StructureExtensionView),
    Extractor(StructureExtractorView),
    Wall(StructureWallView),
    Road(StructureRoadView),
    Rampart(StructureRampartView),
    KeeperLair(StructureKeeperLairView),
    Controller(StructureControllerView),
    Portal(StructurePortalView),
    Link(StructureLinkView),
    Storage(StructureStorageView),
    Tower(StructureTowerView),
    Observer(StructureObserverView),
    PowerBank(StructurePowerBankView),
    PowerSpawn(StructurePowerSpawnView),
    PowerCreep(PowerCreepView),
    Lab(StructureLabView),
    Terminal(StructureTerminalView),
    Container(StructureContainerView),
    Nuker(StructureNukerView),
    Tombstone(TombstoneView),
    Creep(CreepView),
    Resource(ResourceView),
    ConstructionSite(ConstructionSiteView),
}

/// The abstract value of a `KnownRoomObjectUpdate`.
pub enum KnownRoomObjectUpdateView {
    Source(SourceUpdateView),
    Mineral(MineralUpdateView),
    Spawn(StructureSpawnUpdateView),
    Extension(StructureExtensionUpdateView),
    Extractor(StructureExtractorUpdateView),
    Wall(StructureWallUpdateView),
    Road(StructureRoadUpdateView),
    Rampart(StructureRampartUpdateView),
    KeeperLair(StructureKeeperLairUpdateView),
    Controller(StructureControllerUpdateView),
    Portal(StructurePortalUpdateView),
    Link(StructureLinkUpdateView),
    Storage(StructureStorageUpdateView),
    Tower(StructureTowerUpdateView),
    Observer(StructureObserverUpdateView),
    PowerBank(StructurePowerBankUpdateView),
    PowerSpawn(StructurePowerSpawnUpdateView),
    PowerCreep(PowerCreepUpdateView),
    Lab(StructureLabUpdateView),
    Terminal(StructureTerminalUpdateView),
    Container(StructureContainerUpdateView),
    Nuker(StructureNukerUpdateView),
    Tombstone(TombstoneUpdateView),
    Creep(CreepUpdateView),
    Resource(ResourceUpdateView),
    ConstructionSite(ConstructionSiteUpdateView),
}

/// An update was given for a room object of another kind.
#[derive(Copy, Clone, Debug, PartialEq, Eq, Structural)]
pub struct UpdateKindMismatch;

impl DeepView for KnownRoomObject {
    type V = KnownRoomObjectView;

    open spec fn deep_view(&self) -> KnownRoomObjectView {
        match self {
            KnownRoomObject::Source(o) => KnownRoomObjectView::Source(o.deep_view()),
            KnownRoomObject::Mineral(o) => KnownRoomObjectView::Mineral(o.deep_view()),
            KnownRoomObject::Spawn(o) => KnownRoomObjectView::Spawn(o.deep_view()),
            KnownRoomObject::Extension(o) => KnownRoomObjectView::Extension(o.deep_view()),
            KnownRoomObject::Extractor(o) => KnownRoomObjectView::Extractor(o.deep_view()),
            KnownRoomObject::Wall(o) => KnownRoomObjectView::Wall(o.deep_view()),
            KnownRoomObject::Road(o) => KnownRoomObjectView::Road(o.deep_view()),
            KnownRoomObject::Rampart(o) => KnownRoomObjectView::Rampart(o.deep_view()),
            KnownRoomObject::KeeperLair(o) => KnownRoomObjectView::KeeperLair(o.deep_view()),
            KnownRoomObject::Controller(o) => KnownRoomObjectView::Controller(o.deep_view()),
            KnownRoomObject::Portal(o) => KnownRoomObjectView::Portal(o.deep_view()),
            KnownRoomObject::Link(o) => KnownRoomObjectView::Link(o.deep_view()),
            KnownRoomObject::Storage(o) => KnownRoomObjectView::Storage(o.deep_view()),
            KnownRoomObject::Tower(o) => KnownRoomObjectView::Tower(o.deep_view()),
            KnownRoomObject::Observer(o) => KnownRoomObjectView::Observer(o.deep_view()),
            KnownRoomObject::PowerBank(o) => KnownRoomObjectView::PowerBank(o.deep_view()),
            KnownRoomObject::PowerSpawn(o) => KnownRoomObjectView::PowerSpawn(o.deep_view()),
            KnownRoomObject::PowerCreep(o) => KnownRoomObjectView::PowerCreep(o.deep_view()),
            KnownRoomObject::Lab(o) => KnownRoomObjectView::Lab(o.deep_view()),
            KnownRoomObject::Terminal(o) => KnownRoomObjectView::Terminal(o.deep_view()),
            KnownRoomObject::Container(o) => KnownRoomObjectView::Container(o.deep_view()),
            KnownRoomObject::Nuker(o) => KnownRoomObjectView::Nuker(o.deep_view()),
            KnownRoomObject::Tombstone(o) => KnownRoomObjectView::Tombstone(o.deep_view()),
            KnownRoomObject::Creep(o) => KnownRoomObjectView::Creep(o.deep_view()),
            KnownRoomObject::Resource(o) => KnownRoomObjectView::Resource(o.deep_view()),
            KnownRoomObject::ConstructionSite(o) => KnownRoomObjectView::ConstructionSite(o.deep_view()),
        }
    }
}

impl DeepView for KnownRoomObjectUpdate {
    type V = KnownRoomObjectUpdateView;

    open spec fn deep_view(&self) -> KnownRoomObjectUpdateView {
        match self {
            KnownRoomObjectUpdate::Source(o) => KnownRoomObjectUpdateView::Source(o.deep_view()),
            KnownRoomObjectUpdate::Mineral(o) => KnownRoomObjectUpdateView::Mineral(o.deep_view()),
            KnownRoomObjectUpdate::Spawn(o) => KnownRoomObjectUpdateView::Spawn(o.deep_view()),
            KnownRoomObjectUpdate::Extension(o) => KnownRoomObjectUpdateView::Extension(o.deep_view()),
            KnownRoomObjectUpdate::Extractor(o) => KnownRoomObjectUpdateView::Extractor(o.deep_view()),
            KnownRoomObjectUpdate::Wall(o) => KnownRoomObjectUpdateView::Wall(o.deep_view()),
            KnownRoomObjectUpdate::Road(o) => KnownRoomObjectUpdateView::Road(o.deep_view()),
            KnownRoomObjectUpdate::Rampart(o) => KnownRoomObjectUpdateView::Rampart(o.deep_view()),
            KnownRoomObjectUpdate::KeeperLair(o) => KnownRoomObjectUpdateView::KeeperLair(o.deep_view()),
            KnownRoomObjectUpdate::Controller(o) => KnownRoomObjectUpdateView::Controller(o.deep_view()),
            KnownRoomObjectUpdate::Portal(o) => KnownRoomObjectUpdateView::Portal(o.deep_view()),
            KnownRoomObjectUpdate::Link(o) => KnownRoomObjectUpdateView::Link(o.deep_view()),
            KnownRoomObjectUpdate::Storage(o) => KnownRoomObjectUpdateView::Storage(o.deep_view()),
            KnownRoomObjectUpdate::Tower(o) => KnownRoomObjectUpdateView::Tower(o.deep_view()),
            KnownRoomObjectUpdate::Observer(o) => KnownRoomObjectUpdateView::Observer(o.deep_view()),
            KnownRoomObjectUpdate::PowerBank(o) => KnownRoomObjectUpdateView::PowerBank(o.deep_view()),
            KnownRoomObjectUpdate::PowerSpawn(o) => KnownRoomObjectUpdateView::PowerSpawn(o.deep_view()),
            KnownRoomObjectUpdate::PowerCreep(o) => KnownRoomObjectUpdateView::PowerCreep(o.deep_view()),
            KnownRoomObjectUpdate::Lab(o) => KnownRoomObjectUpdateView::Lab(o.deep_view()),
            KnownRoomObjectUpdate::Terminal(o) => KnownRoomObjectUpdateView::Terminal(o.deep_view()),
            KnownRoomObjectUpdate::Container(o) => KnownRoomObjectUpdateView::Container(o.deep_view()),
            KnownRoomObjectUpdate::Nuker(o) => KnownRoomObjectUpdateView::Nuker(o.deep_view()),
            KnownRoomObjectUpdate::Tombstone(o) => KnownRoomObjectUpdateView::Tombstone(o.deep_view()),
            KnownRoomObjectUpdate::Creep(o) => KnownRoomObjectUpdateView::Creep(o.deep_view()),
            KnownRoomObjectUpdate::Resource(o) => KnownRoomObjectUpdateView::Resource(o.deep_view()),
            KnownRoomObjectUpdate::ConstructionSite(o) => KnownRoomObjectUpdateView::ConstructionSite(o.deep_view()),
        }
    }
}

/// The x position of a room object.
pub open spec fn object_x(o: KnownRoomObjectView) -> u32 {
    match o {
        KnownRoomObjectView::Source(v) => v.x,
        KnownRoomObjectView::Mineral(v) => v.x,
        KnownRoomObjectView::Spawn(v) => v.x,
        KnownRoomObjectView::Extension(v) => v.x,
        KnownRoomObjectView::Extractor(v) => v.x,
        KnownRoomObjectView::Wall(v) => v.x,
        KnownRoomObjectView::Road(v) => v.x,
        KnownRoomObjectView::Rampart(v) => v.x,
        KnownRoomObjectView::KeeperLair(v) => v.x,
        KnownRoomObjectView::Controller(v) => v.x,
        KnownRoomObjectView::Portal(v) => v.x,
        KnownRoomObjectView::Link(v) => v.x,
        KnownRoomObjectView::Storage(v) => v.x,
        KnownRoomObjectView::Tower(v) => v.x,
        KnownRoomObjectView::Observer(v) => v.x,
        KnownRoomObjectView::PowerBank(v) => v.x,
        KnownRoomObjectView::PowerSpawn(v) => v.x,
        KnownRoomObjectView::PowerCreep(v) => v.x,
        KnownRoomObjectView::Lab(v) => v.x,
        KnownRoomObjectView::Terminal(v) => v.x,
        KnownRoomObjectView::Container(v) => v.x,
        KnownRoomObjectView::Nuker(v) => v.x,
        KnownRoomObjectView::Tombstone(v) => v.x,
        KnownRoomObjectView::Creep(v) => v.x,
        KnownRoomObjectView::Resource(v) => v.x,
        KnownRoomObjectView::ConstructionSite(v) => v.x,
    }
}

/// The y position of a room object.
pub open spec fn object_y(o: KnownRoomObjectView) -> u32 {
    match o {
        KnownRoomObjectView::Source(v) => v.y,
        KnownRoomObjectView::Mineral(v) => v.y,
        KnownRoomObjectView::Spawn(v) => v.y,
        KnownRoomObjectView::Extension(v) => v.y,
        KnownRoomObjectView::Extractor(v) => v.y,
        KnownRoomObjectView::Wall(v) => v.y,
        KnownRoomObjectView::Road(v) => v.y,
        KnownRoomObjectView::Rampart(v) => v.y,
        KnownRoomObjectView::KeeperLair(v) => v.y,
        KnownRoomObjectView::Controller(v) => v.y,
        KnownRoomObjectView::Portal(v) => v.y,
        KnownRoomObjectView::Link(v) => v.y,
        KnownRoomObjectView::Storage(v) => v.y,
        KnownRoomObjectView::Tower(v) => v.y,
        KnownRoomObjectView::Observer(v) => v.y,
        KnownRoomObjectView::PowerBank(v) => v.y,
        KnownRoomObjectView::PowerSpawn(v) => v.y,
        KnownRoomObjectView::PowerCreep(v) => v.y,
        KnownRoomObjectView::Lab(v) => v.y,
        KnownRoomObjectView::Terminal(v) => v.y,
        KnownRoomObjectView::Container(v) => v.y,
        KnownRoomObjectView::Nuker(v) => v.y,
        KnownRoomObjectView::Tombstone(v) => v.y,
        KnownRoomObjectView::Creep(v) => v.y,
        KnownRoomObjectView::Resource(v) => v.y,
        KnownRoomObjectView::ConstructionSite(v) => v.y,
    }
}

/// The id of a room object.
pub open spec fn object_id(o: KnownRoomObjectView) -> Seq<char> {
    match o {
        KnownRoomObjectView::Source(v) => v.id,
        KnownRoomObjectView::Mineral(v) => v.id,
        KnownRoomObjectView::Spawn(v) => v.id,
        KnownRoomObjectView::Extension(v) => v.id,
        KnownRoomObjectView::Extractor(v) => v.id,
        KnownRoomObjectView::Wall(v) => v.id,
        KnownRoomObjectView::Road(v) => v.id,
        KnownRoomObjectView::Rampart(v) => v.id,
        KnownRoomObjectView::KeeperLair(v) => v.id,
        KnownRoomObjectView::Controller(v) => v.id,
        KnownRoomObjectView::Portal(v) => v.id,
        KnownRoomObjectView::Link(v) => v.id,
        KnownRoomObjectView::Storage(v) => v.id,
        KnownRoomObjectView::Tower(v) => v.id,
        KnownRoomObjectView::Observer(v) => v.id,
        KnownRoomObjectView::PowerBank(v) => v.id,
        KnownRoomObjectView::PowerSpawn(v) => v.id,
        KnownRoomObjectView::PowerCreep(v) => v.id,
        KnownRoomObjectView::Lab(v) => v.id,
        KnownRoomObjectView::Terminal(v) => v.id,
        KnownRoomObjectView::Container(v) => v.id,
        KnownRoomObjectView::Nuker(v) => v.id,
        KnownRoomObjectView::Tombstone(v) => v.id,
        KnownRoomObjectView::Creep(v) => v.id,
        KnownRoomObjectView::Resource(v) => v.id,
        KnownRoomObjectView::ConstructionSite(v) => v.id,
    }
}

/// The room a room object is in.
pub open spec fn object_room(o: KnownRoomObjectView) -> RoomName {
    match o {
        KnownRoomObjectView::Source(v) => v.room,
        KnownRoomObjectView::Mineral(v) => v.room,
        KnownRoomObjectView::Spawn(v) => v.room,
        KnownRoomObjectView::Extension(v) => v.room,
        KnownRoomObjectView::Extractor(v) => v.room,
        KnownRoomObjectView::Wall(v) => v.room,
        KnownRoomObjectView::Road(v) => v.room,
        KnownRoomObjectView::Rampart(v) => v.room,
        KnownRoomObjectView::KeeperLair(v) => v.room,
        KnownRoomObjectView::Controller(v) => v.room,
        KnownRoomObjectView::Portal(v) => v.room,
        KnownRoomObjectView::Link(v) => v.room,
        KnownRoomObjectView::Storage(v) => v.room,
        KnownRoomObjectView::Tower(v) => v.room,
        KnownRoomObjectView::Observer(v) => v.room,
        KnownRoomObjectView::PowerBank(v) => v.room,
        KnownRoomObjectView::PowerSpawn(v) => v.room,
        KnownRoomObjectView::PowerCreep(v) => v.room,
        KnownRoomObjectView::Lab(v) => v.room,
        KnownRoomObjectView::Terminal(v) => v.room,
        KnownRoomObjectView::Container(v) => v.room,
        KnownRoomObjectView::Nuker(v) => v.room,
        KnownRoomObjectView::Tombstone(v) => v.room,
        KnownRoomObjectView::Creep(v) => v.room,
        KnownRoomObjectView::Resource(v) => v.room,
        KnownRoomObjectView::ConstructionSite(v) => v.room,
    }
}

/// A room object after an update of its own kind, or None where the update is for another kind.
pub open spec fn object_applied(
    o: KnownRoomObjectView,
    u: KnownRoomObjectUpdateView,
) -> Option<KnownRoomObjectView> {
    match (o, u) {
        (KnownRoomObjectView::Source(a), KnownRoomObjectUpdateView::Source(x)) => Some(
            KnownRoomObjectView::Source(<Source as Updatable>::applied(a, x)),
        ),
        (KnownRoomObjectView::Mineral(a), KnownRoomObjectUpdateView::Mineral(x)) => Some(
            KnownRoomObjectView::Mineral(<Mineral as Updatable>::applied(a, x)),
        ),
        (KnownRoomObjectView::Spawn(a), KnownRoomObjectUpdateView::Spawn(x)) => Some(
            KnownRoomObjectView::Spawn(<StructureSpawn as Updatable>::applied(a, x)),
        ),
        (KnownRoomObjectView::Extension(a), KnownRoomObjectUpdateView::Extension(x)) => Some(
            KnownRoomObjectView::Extension(<StructureExtension as Updatable>::applied(a, x)),
        ),
        (KnownRoomObjectView::Extractor(a), KnownRoomObjectUpdateView::Extractor(x)) => Some(
            KnownRoomObjectView::Extractor(<StructureExtractor as Updatable>::applied(a, x)),
        ),
        (KnownRoomObjectView::Wall(a), KnownRoomObjectUpdateView::Wall(x)) => Some(
            KnownRoomObjectView::Wall(<StructureWall as Updatable>::applied(a, x)),
        ),
        (KnownRoomObjectView::Road(a), KnownRoomObjectUpdateView::Road(x)) => Some(
            KnownRoomObjectView::Road(<StructureRoad as Updatable>::applied(a, x)),
        ),
        (KnownRoomObjectView::Rampart(a), KnownRoomObjectUpdateView::Rampart(x)) => Some(
            KnownRoomObjectView::Rampart(<StructureRampart as Updatable>::applied(a, x)),
        ),
        (KnownRoomObjectView::KeeperLair(a), KnownRoomObjectUpdateView::KeeperLair(x)) => Some(
            KnownRoomObjectView::KeeperLair(<StructureKeeperLair as Updatable>::applied(a, x)),
        ),
        (KnownRoomObjectView::Controller(a), KnownRoomObjectUpdateView::Controller(x)) => Some(
            KnownRoomObjectView::Controller(<StructureController as Updatable>::applied(a, x)),
        ),
        (KnownRoomObjectView::Portal(a), KnownRoomObjectUpdateView::Portal(x)) => Some(
            KnownRoomObjectView::Portal(<StructurePortal as Updatable>::applied(a, x)),
        ),
        (KnownRoomObjectView::Link(a), KnownRoomObjectUpdateView::Link(x)) => Some(
            KnownRoomObjectView::Link(<StructureLink as Updatable>::applied(a, x)),
        ),
        (KnownRoomObjectView::Storage(a), KnownRoomObjectUpdateView::Storage(x)) => Some(
            KnownRoomObjectView::Storage(<StructureStorage as Updatable>::applied(a, x)),
        ),
        (KnownRoomObjectView::Tower(a), KnownRoomObjectUpdateView::Tower(x)) => Some(
            KnownRoomObjectView::Tower(<StructureTower as Updatable>::applied(a, x)),
        ),
        (KnownRoomObjectView::Observer(a), KnownRoomObjectUpdateView::Observer(x)) => Some(
            KnownRoomObjectView::Observer(<StructureObserver as Updatable>::applied(a, x)),
        ),
        (KnownRoomObjectView::PowerBank(a), KnownRoomObjectUpdateView::PowerBank(x)) => Some(
            KnownRoomObjectView::PowerBank(<StructurePowerBank as Updatable>::applied(a, x)),
        ),
        (KnownRoomObjectView::PowerSpawn(a), KnownRoomObjectUpdateView::PowerSpawn(x)) => Some(
            KnownRoomObjectView::PowerSpawn(<StructurePowerSpawn as Updatable>::applied(a, x)),
        ),
        (KnownRoomObjectView::PowerCreep(a), KnownRoomObjectUpdateView::PowerCreep(x)) => Some(
            KnownRoomObjectView::PowerCreep(<PowerCreep as Updatable>::applied(a, x)),
        ),
        (KnownRoomObjectView::Lab(a), KnownRoomObjectUpdateView::Lab(x)) => Some(
            KnownRoomObjectView::Lab(<StructureLab as Updatable>::applied(a, x)),
        ),
        (KnownRoomObjectView::Terminal(a), KnownRoomObjectUpdateView::Terminal(x)) => Some(
            KnownRoomObjectView::Terminal(<StructureTerminal as Updatable>::applied(a, x)),
        ),
        (KnownRoomObjectView::Container(a), KnownRoomObjectUpdateView::Container(x)) => Some(
            KnownRoomObjectView::Container(<StructureContainer as Updatable>::applied(a, x)),
        ),
        (KnownRoomObjectView::Nuker(a), KnownRoomObjectUpdateView::Nuker(x)) => Some(
            KnownRoomObjectView::Nuker(<StructureNuker as Updatable>::applied(a, x)),
        ),
        (KnownRoomObjectView::Tombstone(a), KnownRoomObjectUpdateView::Tombstone(x)) => Some(
            KnownRoomObjectView::Tombstone(<Tombstone as Updatable>::applied(a, x)),
        ),
        (KnownRoomObjectView::Creep(a), KnownRoomObjectUpdateView::Creep(x)) => Some(
            KnownRoomObjectView::Creep(<Creep as Updatable>::applied(a, x)),
        ),
        (KnownRoomObjectView::Resource(a), KnownRoomObjectUpdateView::Resource(x)) => Some(
            KnownRoomObjectView::Resource(<Resource as Updatable>::applied(a, x)),
        ),
        (KnownRoomObjectView::ConstructionSite(a), KnownRoomObjectUpdateView::ConstructionSite(x)) => Some(
            KnownRoomObjectView::ConstructionSite(<ConstructionSite as Updatable>::applied(a, x)),
        ),
        _ => None,
    }
}

/// The x position that an update for a room object names, if any.
pub open spec fn update_x(u: KnownRoomObjectUpdateView) -> Option<u32> {
    match u {
        KnownRoomObjectUpdateView::Source(x) => x.x,
        KnownRoomObjectUpdateView::Mineral(x) => x.x,
        KnownRoomObjectUpdateView::Spawn(x) => x.x,
        KnownRoomObjectUpdateView::Extension(x) => x.x,
        KnownRoomObjectUpdateView::Extractor(x) => x.x,
        KnownRoomObjectUpdateView::Wall(x) => x.x,
        KnownRoomObjectUpdateView::Road(x) => x.x,
        KnownRoomObjectUpdateView::Rampart(x) => x.x,
        KnownRoomObjectUpdateView::KeeperLair(x) => x.x,
        KnownRoomObjectUpdateView::Controller(x) => x.x,
        KnownRoomObjectUpdateView::Portal(x) => x.x,
        KnownRoomObjectUpdateView::Link(x) => x.x,
        KnownRoomObjectUpdateView::Storage(x) => x.x,
        KnownRoomObjectUpdateView::Tower(x) => x.x,
        KnownRoomObjectUpdateView::Observer(x) => x.x,
        KnownRoomObjectUpdateView::PowerBank(x) => x.x,
        KnownRoomObjectUpdateView::PowerSpawn(x) => x.x,
        KnownRoomObjectUpdateView::PowerCreep(x) => x.x,
        KnownRoomObjectUpdateView::Lab(x) => x.x,
        KnownRoomObjectUpdateView::Terminal(x) => x.x,
        KnownRoomObjectUpdateView::Container(x) => x.x,
        KnownRoomObjectUpdateView::Nuker(x) => x.x,
        KnownRoomObjectUpdateView::Tombstone(x) => x.x,
        KnownRoomObjectUpdateView::Creep(x) => x.x,
        KnownRoomObjectUpdateView::Resource(x) => x.x,
        KnownRoomObjectUpdateView::ConstructionSite(x) => x.x,
    }
}

/// The y position that an update for a room object names, if any.
pub open spec fn update_y(u: KnownRoomObjectUpdateView) -> Option<u32> {
    match u {
        KnownRoomObjectUpdateView::Source(x) => x.y,
        KnownRoomObjectUpdateView::Mineral(x) => x.y,
        KnownRoomObjectUpdateView::Spawn(x) => x.y,
        KnownRoomObjectUpdateView::Extension(x) => x.y,
        KnownRoomObjectUpdateView::Extractor(x) => x.y,
        KnownRoomObjectUpdateView::Wall(x) => x.y,
        KnownRoomObjectUpdateView::Road(x) => x.y,
        KnownRoomObjectUpdateView::Rampart(x) => x.y,
        KnownRoomObjectUpdateView::KeeperLair(x) => x.y,
        KnownRoomObjectUpdateView::Controller(x) => x.y,
        KnownRoomObjectUpdateView::Portal(x) => x.y,
        KnownRoomObjectUpdateView::Link(x) => x.y,
        KnownRoomObjectUpdateView::Storage(x) => x.y,
        KnownRoomObjectUpdateView::Tower(x) => x.y,
        KnownRoomObjectUpdateView::Observer(x) => x.y,
        KnownRoomObjectUpdateView::PowerBank(x) => x.y,
        KnownRoomObjectUpdateView::PowerSpawn(x) => x.y,
        KnownRoomObjectUpdateView::PowerCreep(x) => x.y,
        KnownRoomObjectUpdateView::Lab(x) => x.y,
        KnownRoomObjectUpdateView::Terminal(x) => x.y,
        KnownRoomObjectUpdateView::Container(x) => x.y,
        KnownRoomObjectUpdateView::Nuker(x) => x.y,
        KnownRoomObjectUpdateView::Tombstone(x) => x.y,
        KnownRoomObjectUpdateView::Creep(x) => x.y,
        KnownRoomObjectUpdateView::Resource(x) => x.y,
        KnownRoomObjectUpdateView::ConstructionSite(x) => x.y,
    }
}

/// An update moves a room object to the position it names, and leaves the rest of its position
/// as it was.
pub proof fn lemma_update_position(o: KnownRoomObjectView, u: KnownRoomObjectUpdateView)
    requires
        object_applied(o, u) is Some,
    ensures
        object_x(object_applied(o, u)->0) == (match update_x(u) {
            Some(x) => x,
            None => object_x(o),
        }),
        object_y(object_applied(o, u)->0) == (match update_y(u) {
            Some(y) => y,
            None => object_y(o),
        }),
{
}

/// Whether two room objects are of the same kind.
pub open spec fn same_kind(a: KnownRoomObjectView, b: KnownRoomObjectView) -> bool {
    match (a, b) {
        (KnownRoomObjectView::Source(_), KnownRoomObjectView::Source(_)) => true,
        (KnownRoomObjectView::Mineral(_), KnownRoomObjectView::Mineral(_)) => true,
        (KnownRoomObjectView::Spawn(_), KnownRoomObjectView::Spawn(_)) => true,
        (KnownRoomObjectView::Extension(_), KnownRoomObjectView::Extension(_)) => true,
        (KnownRoomObjectView::Extractor(_), KnownRoomObjectView::Extractor(_)) => true,
        (KnownRoomObjectView::Wall(_), KnownRoomObjectView::Wall(_)) => true,
        (KnownRoomObjectView::Road(_), KnownRoomObjectView::Road(_)) => true,
        (KnownRoomObjectView::Rampart(_), KnownRoomObjectView::Rampart(_)) => true,
        (KnownRoomObjectView::KeeperLair(_), KnownRoomObjectView::KeeperLair(_)) => true,
        (KnownRoomObjectView::Controller(_), KnownRoomObjectView::Controller(_)) => true,
        (KnownRoomObjectView::Portal(_), KnownRoomObjectView::Portal(_)) => true,
        (KnownRoomObjectView::Link(_), KnownRoomObjectView::Link(_)) => true,
        (KnownRoomObjectView::Storage(_), KnownRoomObjectView::Storage(_)) => true,
        (KnownRoomObjectView::Tower(_), KnownRoomObjectView::Tower(_)) => true,
        (KnownRoomObjectView::Observer(_), KnownRoomObjectView::Observer(_)) => true,
        (KnownRoomObjectView::PowerBank(_), KnownRoomObjectView::PowerBank(_)) => true,
        (KnownRoomObjectView::PowerSpawn(_), KnownRoomObjectView::PowerSpawn(_)) => true,
        (KnownRoomObjectView::PowerCreep(_), KnownRoomObjectView::PowerCreep(_)) => true,
        (KnownRoomObjectView::Lab(_), KnownRoomObjectView::Lab(_)) => true,
        (KnownRoomObjectView::Terminal(_), KnownRoomObjectView::Terminal(_)) => true,
        (KnownRoomObjectView::Container(_), KnownRoomObjectView::Container(_)) => true,
        (KnownRoomObjectView::Nuker(_), KnownRoomObjectView::Nuker(_)) => true,
        (KnownRoomObjectView::Tombstone(_), KnownRoomObjectView::Tombstone(_)) => true,
        (KnownRoomObjectView::Creep(_), KnownRoomObjectView::Creep(_)) => true,
        (KnownRoomObjectView::Resource(_), KnownRoomObjectView::Resource(_)) => true,
        (KnownRoomObjectView::ConstructionSite(_), KnownRoomObjectView::ConstructionSite(_)) => true,
        _ => false,
    }
}

/// An update never changes what kind of room object it updates.
pub proof fn lemma_update_keeps_kind(o: KnownRoomObjectView, u: KnownRoomObjectUpdateView)
    requires
        object_applied(o, u) is Some,
    ensures
        same_kind(o, object_applied(o, u)->0),
{
}

impl KnownRoomObject {
    /// Update this room object with an update for its kind of object.
    ///
    /// An update for another kind of object is refused, and leaves the object as it was.
    pub fn update(&mut self, update: KnownRoomObjectUpdate) -> (r: Result<(), UpdateKindMismatch>)
        ensures
            match object_applied(old(self).deep_view(), update.deep_view()) {
                Some(n) => r is Ok && final(self).deep_view() == n,
                None => r is Err && *final(self) == *old(self),
            },
    {
        match self {
            KnownRoomObject::Source(o) => match update {
                KnownRoomObjectUpdate::Source(u) => {
                    o.update(u);
                    Ok(())
                },
                _ => Err(UpdateKindMismatch),
            },
            KnownRoomObject::Mineral(o) => match update {
                KnownRoomObjectUpdate::Mineral(u) => {
                    o.update(u);
                    Ok(())
                },
                _ => Err(UpdateKindMismatch),
            },
            KnownRoomObject::Spawn(o) => match update {
                KnownRoomObjectUpdate::Spawn(u) => {
                    o.update(u);
                    Ok(())
                },
                _ => Err(UpdateKindMismatch),
            },
            KnownRoomObject::Extension(o) => match update {
                KnownRoomObjectUpdate::Extension(u) => {
                    o.update(u);
                    Ok(())
                },
                _ => Err(UpdateKindMismatch),
            },
            KnownRoomObject::Extractor(o) => match update {
                KnownRoomObjectUpdate::Extractor(u) => {
                    o.update(u);
                    Ok(())
                },
                _ => Err(UpdateKindMismatch),
            },
            KnownRoomObject::Wall(o) => match update {
                KnownRoomObjectUpdate::Wall(u) => {
                    o.update(u);
                    Ok(())
                },
                _ => Err(UpdateKindMismatch),
            },
            KnownRoomObject::Road(o) => match update {
                KnownRoomObjectUpdate::Road(u) => {
                    o.update(u);
                    Ok(())
                },
                _ => Err(UpdateKindMismatch),
            },
            KnownRoomObject::Rampart(o) => match update {
                KnownRoomObjectUpdate::Rampart(u) => {
                    o.update(u);
                    Ok(())
                },
                _ => Err(UpdateKindMismatch),
            },
            KnownRoomObject::KeeperLair(o) => match update {
                KnownRoomObjectUpdate::KeeperLair(u) => {
                    o.update(u);
                    Ok(())
                },
                _ => Err(UpdateKindMismatch),
            },
            KnownRoomObject::Controller(o) => match update {
                KnownRoomObjectUpdate::Controller(u) => {
                    o.update(u);
                    Ok(())
                },
                _ => Err(UpdateKindMismatch),
            },
            KnownRoomObject::Portal(o) => match update {
                KnownRoomObjectUpdate::Portal(u) => {
                    o.update(u);
                    Ok(())
                },
                _ => Err(UpdateKindMismatch),
            },
            KnownRoomObject::Link(o) => match update {
                KnownRoomObjectUpdate::Link(u) => {
                    o.update(u);
                    Ok(())
                },
                _ => Err(UpdateKindMismatch),
            },
            KnownRoomObject::Storage(o) => match update {
                KnownRoomObjectUpdate::Storage(u) => {
                    o.update(u);
                    Ok(())
                },
                _ => Err(UpdateKindMismatch),
            },
            KnownRoomObject::Tower(o) => match update {
                KnownRoomObjectUpdate::Tower(u) => {
                    o.update(u);
                    Ok(())
                },
                _ => Err(UpdateKindMismatch),
            },
            KnownRoomObject::Observer(o) => match update {
                KnownRoomObjectUpdate::Observer(u) => {
                    o.update(u);
                    Ok(())
                },
                _ => Err(UpdateKindMismatch),
            },
            KnownRoomObject::PowerBank(o) => match update {
                KnownRoomObjectUpdate::PowerBank(u) => {
                    o.update(u);
                    Ok(())
                },
                _ => Err(UpdateKindMismatch),
            },
            KnownRoomObject::PowerSpawn(o) => match update {
                KnownRoomObjectUpdate::PowerSpawn(u) => {
                    o.update(u);
                    Ok(())
                },
                _ => Err(UpdateKindMismatch),
            },
            KnownRoomObject::PowerCreep(o) => match update {
                KnownRoomObjectUpdate::PowerCreep(u) => {
                    o.update(u);
                    Ok(())
                },
                _ => Err(UpdateKindMismatch),
            },
            KnownRoomObject::Lab(o) => match update {
                KnownRoomObjectUpdate::Lab(u) => {
                    o.update(u);
                    Ok(())
                },
                _ => Err(UpdateKindMismatch),
            },
            KnownRoomObject::Terminal(o) => match update {
                KnownRoomObjectUpdate::Terminal(u) => {
                    o.update(u);
                    Ok(())
                },
                _ => Err(UpdateKindMismatch),
            },
            KnownRoomObject::Container(o) => match update {
                KnownRoomObjectUpdate::Container(u) => {
                    o.update(u);
                    Ok(())
                },
                _ => Err(UpdateKindMismatch),
            },
            KnownRoomObject::Nuker(o) => match update {
                KnownRoomObjectUpdate::Nuker(u) => {
                    o.update(u);
                    Ok(())
                },
                _ => Err(UpdateKindMismatch),
            },
            KnownRoomObject::Tombstone(o) => match update {
                KnownRoomObjectUpdate::Tombstone(u) => {
                    o.update(u);
                    Ok(())
                },
                _ => Err(UpdateKindMismatch),
            },
            KnownRoomObject::Creep(o) => match update {
                KnownRoomObjectUpdate::Creep(u) => {
                    o.update(u);
                    Ok(())
                },
                _ => Err(UpdateKindMismatch),
            },
            KnownRoomObject::Resource(o) => match update {
                KnownRoomObjectUpdate::Resource(u) => {
                    o.update(u);
                    Ok(())
                },
                _ => Err(UpdateKindMismatch),
            },
            KnownRoomObject::ConstructionSite(o) => match update {
                KnownRoomObjectUpdate::ConstructionSite(u) => {
                    o.update(u);
                    Ok(())
                },
                _ => Err(UpdateKindMismatch),
            },
        }
    }

    /// Get this object's x position
    pub fn x(&self) -> (r: u32)
        ensures
            r == object_x(self.deep_view()),
    {
        match self {
            KnownRoomObject::Source(v) => v.x,
            KnownRoomObject::Mineral(v) => v.x,
            KnownRoomObject::Spawn(v) => v.x,
            KnownRoomObject::Extension(v) => v.x,
            KnownRoomObject::Extractor(v) => v.x,
            KnownRoomObject::Wall(v) => v.x,
            KnownRoomObject::Road(v) => v.x,
            KnownRoomObject::Rampart(v) => v.x,
            KnownRoomObject::KeeperLair(v) => v.x,
            KnownRoomObject::Controller(v) => v.x,
            KnownRoomObject::Portal(v) => v.x,
            KnownRoomObject::Link(v) => v.x,
            KnownRoomObject::Storage(v) => v.x,
            KnownRoomObject::Tower(v) => v.x,
            KnownRoomObject::Observer(v) => v.x,
            KnownRoomObject::PowerBank(v) => v.x,
            KnownRoomObject::PowerSpawn(v) => v.x,
            KnownRoomObject::PowerCreep(v) => v.x,
            KnownRoomObject::Lab(v) => v.x,
            KnownRoomObject::Terminal(v) => v.x,
            KnownRoomObject::Container(v) => v.x,
            KnownRoomObject::Nuker(v) => v.x,
            KnownRoomObject::Tombstone(v) => v.x,
            KnownRoomObject::Creep(v) => v.x,
            KnownRoomObject::Resource(v) => v.x,
            KnownRoomObject::ConstructionSite(v) => v.x,
        }
    }

    /// Get this object's y position
    pub fn y(&self) -> (r: u32)
        ensures
            r == object_y(self.deep_view()),
    {
        match self {
            KnownRoomObject::Source(v) => v.y,
            KnownRoomObject::Mineral(v) => v.y,
            KnownRoomObject::Spawn(v) => v.y,
            KnownRoomObject::Extension(v) => v.y,
            KnownRoomObject::Extractor(v) => v.y,
            KnownRoomObject::Wall(v) => v.y,
            KnownRoomObject::Road(v) => v.y,
            KnownRoomObject::Rampart(v) => v.y,
            KnownRoomObject::KeeperLair(v) => v.y,
            KnownRoomObject::Controller(v) => v.y,
            KnownRoomObject::Portal(v) => v.y,
            KnownRoomObject::Link(v) => v.y,
            KnownRoomObject::Storage(v) => v.y,
            KnownRoomObject::Tower(v) => v.y,
            KnownRoomObject::Observer(v) => v.y,
            KnownRoomObject::PowerBank(v) => v.y,
            KnownRoomObject::PowerSpawn(v) => v.y,
            KnownRoomObject::PowerCreep(v) => v.y,
            KnownRoomObject::Lab(v) => v.y,
            KnownRoomObject::Terminal(v) => v.y,
            KnownRoomObject::Container(v) => v.y,
            KnownRoomObject::Nuker(v) => v.y,
            KnownRoomObject::Tombstone(v) => v.y,
            KnownRoomObject::Creep(v) => v.y,
            KnownRoomObject::Resource(v) => v.y,
            KnownRoomObject::ConstructionSite(v) => v.y,
        }
    }

    /// Get this object's id
    pub fn id(&self) -> (r: &str)
        ensures
            r@ == object_id(self.deep_view()),
    {
        match self {
            KnownRoomObject::Source(v) => v.id.as_str(),
            KnownRoomObject::Mineral(v) => v.id.as_str(),
            KnownRoomObject::Spawn(v) => v.id.as_str(),
            KnownRoomObject::Extension(v) => v.id.as_str(),
            KnownRoomObject::Extractor(v) => v.id.as_str(),
            KnownRoomObject::Wall(v) => v.id.as_str(),
            KnownRoomObject::Road(v) => v.id.as_str(),
            KnownRoomObject::Rampart(v) => v.id.as_str(),
            KnownRoomObject::KeeperLair(v) => v.id.as_str(),
            KnownRoomObject::Controller(v) => v.id.as_str(),
            KnownRoomObject::Portal(v) => v.id.as_str(),
            KnownRoomObject::Link(v) => v.id.as_str(),
            KnownRoomObject::Storage(v) => v.id.as_str(),
            KnownRoomObject::Tower(v) => v.id.as_str(),
            KnownRoomObject::Observer(v) => v.id.as_str(),
            KnownRoomObject::PowerBank(v) => v.id.as_str(),
            KnownRoomObject::PowerSpawn(v) => v.id.as_str(),
            KnownRoomObject::PowerCreep(v) => v.id.as_str(),
            KnownRoomObject::Lab(v) => v.id.as_str(),
            KnownRoomObject::Terminal(v) => v.id.as_str(),
            KnownRoomObject::Container(v) => v.id.as_str(),
            KnownRoomObject::Nuker(v) => v.id.as_str(),
            KnownRoomObject::Tombstone(v) => v.id.as_str(),
            KnownRoomObject::Creep(v) => v.id.as_str(),
            KnownRoomObject::Resource(v) => v.id.as_str(),
            KnownRoomObject::ConstructionSite(v) => v.id.as_str(),
        }
    }

    /// Get this object's room name
    pub fn room(&self) -> (r: RoomName)
        ensures
            r == object_room(self.deep_view()),
    {
        match self {
            KnownRoomObject::Source(v) => v.room,
            KnownRoomObject::Mineral(v) => v.room,
            KnownRoomObject::Spawn(v) => v.room,
            KnownRoomObject::Extension(v) => v.room,
            KnownRoomObject::Extractor(v) => v.room,
            KnownRoomObject::Wall(v) => v.room,
            KnownRoomObject::Road(v) => v.room,
            KnownRoomObject::Rampart(v) => v.room,
            KnownRoomObject::KeeperLair(v) => v.room,
            KnownRoomObject::Controller(v) => v.room,
            KnownRoomObject::Portal(v) => v.room,
            KnownRoomObject::Link(v) => v.room,
            KnownRoomObject::Storage(v) => v.room,
            KnownRoomObject::Tower(v) => v.room,
            KnownRoomObject::Observer(v) => v.room,
            KnownRoomObject::PowerBank(v) => v.room,
            KnownRoomObject::PowerSpawn(v) => v.room,
            KnownRoomObject::PowerCreep(v) => v.room,
            KnownRoomObject::Lab(v) => v.room,
            KnownRoomObject::Terminal(v) => v.room,
            KnownRoomObject::Container(v) => v.room,
            KnownRoomObject::Nuker(v) => v.room,
            KnownRoomObject::Tombstone(v) => v.room,
            KnownRoomObject::Creep(v) => v.room,
            KnownRoomObject::Resource(v) => v.room,
            KnownRoomObject::ConstructionSite(v) => v.room,
        }
    }
}

} // verus!
