//! `StructureController` data description.
use vstd::prelude::*;

use crate::room_name::RoomName;
use crate::updatable::{Updatable, apply_field, applied_field, created_field, Timespec};

verus! {

/// A room sign.
#[derive(Clone, Debug, PartialEq)]
pub struct RoomSign {
    /// The game time when the sign was set.
    pub game_time_set: u32,
    /// The real date/time when the sign was set.
    pub time_set: Timespec,
    /// The user ID of the user who set the sign.
    pub user_id: String,
    /// The text of the sign.
    pub text: String,
}

/// The abstract value of a `RoomSign`.
pub struct RoomSignView {
    pub game_time_set: u32,
    pub time_set: Timespec,
    pub user_id: Seq<char>,
    pub text: Seq<char>,
}

/// Update for room signs
///
/// Each field that is present replaces or updates the field of the same name.
#[derive(Clone, Debug, Default)]
pub struct RoomSignUpdate {
    pub game_time_set: Option<u32>,
    pub time_set: Option<Timespec>,
    pub user_id: Option<String>,
    pub text: Option<String>,
}

/// The abstract value of a `RoomSignUpdate`.
pub struct RoomSignUpdateView {
    pub game_time_set: Option<u32>,
    pub time_set: Option<Timespec>,
    pub user_id: Option<Seq<char>>,
    pub text: Option<Seq<char>>,
}

impl DeepView for RoomSign {
    type V = RoomSignView;

    open spec fn deep_view(&self) -> RoomSignView {
        RoomSignView {
            game_time_set: self.game_time_set.deep_view(),
            time_set: self.time_set.deep_view(),
            user_id: self.user_id.deep_view(),
            text: self.text.deep_view(),
        }
    }
}

impl DeepView for RoomSignUpdate {
    type V = RoomSignUpdateView;

    open spec fn deep_view(&self) -> RoomSignUpdateView {
        RoomSignUpdateView {
            game_time_set: self.game_time_set.deep_view(),
            time_set: self.time_set.deep_view(),
            user_id: self.user_id.deep_view(),
            text: self.text.deep_view(),
        }
    }
}

impl Updatable for RoomSign {
    type Update = RoomSignUpdate;

    open spec fn applied(v: RoomSignView, u: RoomSignUpdateView) -> RoomSignView {
        RoomSignView {
            game_time_set: applied_field::<u32>(v.game_time_set, u.game_time_set),
            time_set: applied_field::<Timespec>(v.time_set, u.time_set),
            user_id: applied_field::<String>(v.user_id, u.user_id),
            text: applied_field::<String>(v.text, u.text),
        }
    }

    open spec fn created(u: RoomSignUpdateView) -> Option<RoomSignView> {
        if created_field::<u32>(u.game_time_set) is Some
            && created_field::<Timespec>(u.time_set) is Some
            && created_field::<String>(u.user_id) is Some
            && created_field::<String>(u.text) is Some {
            Some(
                RoomSignView {
                    game_time_set: created_field::<u32>(u.game_time_set)->0,
                    time_set: created_field::<Timespec>(u.time_set)->0,
                    user_id: created_field::<String>(u.user_id)->0,
                    text: created_field::<String>(u.text)->0,
                },
            )
        } else {
            None
        }
    }

    fn apply_update(&mut self, update: RoomSignUpdate) {
        let RoomSignUpdate { game_time_set, time_set, user_id, text } = update;
        apply_field(&mut self.game_time_set, game_time_set);
        apply_field(&mut self.time_set, time_set);
        apply_field(&mut self.user_id, user_id);
        apply_field(&mut self.text, text);
    }

    fn create_from_update(update: RoomSignUpdate) -> (r: Option<RoomSign>) {
        let RoomSignUpdate { game_time_set, time_set, user_id, text } = update;
        let game_time_set = match game_time_set {
            Some(u) => match <u32 as Updatable>::create_from_update(u) {
                Some(v) => v,
                None => return None,
            },
            None => return None,
        };
        let time_set = match time_set {
            Some(u) => match <Timespec as Updatable>::create_from_update(u) {
                Some(v) => v,
                None => return None,
            },
            None => return None,
        };
        let user_id = match user_id {
            Some(u) => match <String as Updatable>::create_from_update(u) {
                Some(v) => v,
                None => return None,
            },
            None => return None,
        };
        let text = match text {
            Some(u) => match <String as Updatable>::create_from_update(u) {
                Some(v) => v,
                None => return None,
            },
            None => return None,
        };
        Some(RoomSign { game_time_set, time_set, user_id, text })
    }
}

impl RoomSign {
    /// Updates this structure with all values present in the given update.
    pub fn update(&mut self, update: RoomSignUpdate)
        ensures
            final(self).deep_view() == <RoomSign as Updatable>::applied(
                old(self).deep_view(),
                update.deep_view(),
            ),
    {
        self.apply_update(update);
    }
}

/// A struct describing a room's reservation.
#[derive(Clone, Debug, PartialEq)]
pub struct ControllerReservation {
    /// The user ID of the user reserving this controller.
    pub user: String,
    /// The game time when this reservation will end if not extended.
    pub end_time: u32,
}

/// The abstract value of a `ControllerReservation`.
pub struct ControllerReservationView {
    pub user: Seq<char>,
    pub end_time: u32,
}

/// The update structure for a controller reservation.
///
/// Each field that is present replaces or updates the field of the same name.
#[derive(Clone, Debug, Default)]
pub struct ControllerReservationUpdate {
    pub user: Option<String>,
    pub end_time: Option<u32>,
}

/// The abstract value of a `ControllerReservationUpdate`.
pub struct ControllerReservationUpdateView {
    pub user: Option<Seq<char>>,
    pub end_time: Option<u32>,
}

impl DeepView for ControllerReservation {
    type V = ControllerReservationView;

    open spec fn deep_view(&self) -> ControllerReservationView {
        ControllerReservationView {
            user: self.user.deep_view(),
            end_time: self.end_time.deep_view(),
        }
    }
}

impl DeepView for ControllerReservationUpdate {
    type V = ControllerReservationUpdateView;

    open spec fn deep_view(&self) -> ControllerReservationUpdateView {
        ControllerReservationUpdateView {
            user: self.user.deep_view(),
            end_time: self.end_time.deep_view(),
        }
    }
}

impl Updatable for ControllerReservation {
    type Update = ControllerReservationUpdate;

    open spec fn applied(v: ControllerReservationView, u: ControllerReservationUpdateView) -> ControllerReservationView {
        ControllerReservationView {
            user: applied_field::<String>(v.user, u.user),
            end_time: applied_field::<u32>(v.end_time, u.end_time),
        }
    }

    open spec fn created(u: ControllerReservationUpdateView) -> Option<ControllerReservationView> {
        if created_field::<String>(u.user) is Some
            && created_field::<u32>(u.end_time) is Some {
            Some(
                ControllerReservationView {
                    user: created_field::<String>(u.user)->0,
                    end_time: created_field::<u32>(u.end_time)->0,
                },
            )
        } else {
            None
        }
    }

    fn apply_update(&mut self, update: ControllerReservationUpdate) {
        let ControllerReservationUpdate { user, end_time } = update;
        apply_field(&mut self.user, user);
        apply_field(&mut self.end_time, end_time);
    }

    fn create_from_update(update: ControllerReservationUpdate) -> (r: Option<ControllerReservation>) {
        let ControllerReservationUpdate { user, end_time } = update;
        let user = match user {
            Some(u) => match <String as Updatable>::create_from_update(u) {
                Some(v) => v,
                None => return None,
            },
            None => return None,
        };
        let end_time = match end_time {
            Some(u) => match <u32 as Updatable>::create_from_update(u) {
                Some(v) => v,
                None => return None,
            },
            None => return None,
        };
        Some(ControllerReservation { user, end_time })
    }
}

impl ControllerReservation {
    /// Updates this structure with all values present in the given update.
    pub fn update(&mut self, update: ControllerReservationUpdate)
        ensures
            final(self).deep_view() == <ControllerReservation as Updatable>::applied(
                old(self).deep_view(),
                update.deep_view(),
            ),
    {
        self.apply_update(update);
    }
}

/// A controller, an object creeps can upgrade in order to increase room level.
#[derive(Clone, Debug, PartialEq)]
pub struct StructureController {
    /// Unique 'id' identifier for all game objects on a server.
    pub id: String,
    /// Room object is in.
    pub room: RoomName,
    /// X position within the room (0-50).
    pub x: u32,
    /// Y position within the room (0-50).
    pub y: u32,
    /// The current number of hit-points this structure has.
    pub hits: i32,
    /// The maximum number of hit-points this structure has.
    pub hits_max: i32,
    /// The number of upgrade points the controller has.
    pub progress: u64,
    /// The number of upgrade points needed before the next level is reached.
    pub progress_total: u64,
    /// The current controller level (1-8 inclusive).
    pub level: u16,
    /// Controller reservation.
    pub reservation: Option<ControllerReservation>,
    /// Game time at which the current safemode will end, if any.
    pub safe_mode: Option<u32>,
    /// How many more safemodes are available.
    pub safe_mode_available: u32,
    /// The game time that must be reached before safe mode can be used on the controller.
    ///
    /// May be in the past, in which safe mode may be used immediately.
    pub safe_mode_cooldown: u32,
    /// The number of game ticks without an upgrade needed before the controller downgrades.
    ///
    /// None if unowned.
    pub downgrade_time: Option<u64>,
    /// The room sign.
    pub sign: Option<RoomSign>,
    /// The number of ticks until upgrading is no longer blocked.
    pub upgrade_blocked: Option<u32>,
    /// ID of the user who owns the controller, and thus the room.
    pub user: Option<String>,
}

/// The abstract value of a `StructureController`.
pub struct StructureControllerView {
    pub id: Seq<char>,
    pub room: RoomName,
    pub x: u32,
    pub y: u32,
    pub hits: i32,
    pub hits_max: i32,
    pub progress: u64,
    pub progress_total: u64,
    pub level: u16,
    pub reservation: Option<ControllerReservationView>,
    pub safe_mode: Option<u32>,
    pub safe_mode_available: u32,
    pub safe_mode_cooldown: u32,
    pub downgrade_time: Option<u64>,
    pub sign: Option<RoomSignView>,
    pub upgrade_blocked: Option<u32>,
    pub user: Option<Seq<char>>,
}

/// The update structure for a controller object.
///
/// Each field that is present replaces or updates the field of the same name.
#[derive(Clone, Debug, Default)]
pub struct StructureControllerUpdate {
    pub id: Option<String>,
    pub room: Option<RoomName>,
    pub x: Option<u32>,
    pub y: Option<u32>,
    pub hits: Option<i32>,
    pub hits_max: Option<i32>,
    pub progress: Option<u64>,
    pub progress_total: Option<u64>,
    pub level: Option<u16>,
    pub reservation: Option<Option<ControllerReservationUpdate>>,
    pub safe_mode: Option<Option<u32>>,
    pub safe_mode_available: Option<u32>,
    pub safe_mode_cooldown: Option<u32>,
    pub downgrade_time: Option<Option<u64>>,
    pub sign: Option<Option<RoomSignUpdate>>,
    pub upgrade_blocked: Option<Option<u32>>,
    pub user: Option<Option<String>>,
}

/// The abstract value of a `StructureControllerUpdate`.
pub struct StructureControllerUpdateView {
    pub id: Option<Seq<char>>,
    pub room: Option<RoomName>,
    pub x: Option<u32>,
    pub y: Option<u32>,
    pub hits: Option<i32>,
    pub hits_max: Option<i32>,
    pub progress: Option<u64>,
    pub progress_total: Option<u64>,
    pub level: Option<u16>,
    pub reservation: Option<Option<ControllerReservationUpdateView>>,
    pub safe_mode: Option<Option<u32>>,
    pub safe_mode_available: Option<u32>,
    pub safe_mode_cooldown: Option<u32>,
    pub downgrade_time: Option<Option<u64>>,
    pub sign: Option<Option<RoomSignUpdateView>>,
    pub upgrade_blocked: Option<Option<u32>>,
    pub user: Option<Option<Seq<char>>>,
}

impl DeepView for StructureController {
    type V = StructureControllerView;

    open spec fn deep_view(&self) -> StructureControllerView {
        StructureControllerView {
            id: self.id.deep_view(),
            room: self.room.deep_view(),
            x: self.x.deep_view(),
            y: self.y.deep_view(),
            hits: self.hits.deep_view(),
            hits_max: self.hits_max.deep_view(),
            progress: self.progress.deep_view(),
            progress_total: self.progress_total.deep_view(),
            level: self.level.deep_view(),
            reservation: self.reservation.deep_view(),
            safe_mode: self.safe_mode.deep_view(),
            safe_mode_available: self.safe_mode_available.deep_view(),
            safe_mode_cooldown: self.safe_mode_cooldown.deep_view(),
            downgrade_time: self.downgrade_time.deep_view(),
            sign: self.sign.deep_view(),
            upgrade_blocked: self.upgrade_blocked.deep_view(),
            user: self.user.deep_view(),
        }
    }
}

impl DeepView for StructureControllerUpdate {
    type V = StructureControllerUpdateView;

    open spec fn deep_view(&self) -> StructureControllerUpdateView {
        StructureControllerUpdateView {
            id: self.id.deep_view(),
            room: self.room.deep_view(),
            x: self.x.deep_view(),
            y: self.y.deep_view(),
            hits: self.hits.deep_view(),
            hits_max: self.hits_max.deep_view(),
            progress: self.progress.deep_view(),
            progress_total: self.progress_total.deep_view(),
            level: self.level.deep_view(),
            reservation: self.reservation.deep_view(),
            safe_mode: self.safe_mode.deep_view(),
            safe_mode_available: self.safe_mode_available.deep_view(),
            safe_mode_cooldown: self.safe_mode_cooldown.deep_view(),
            downgrade_time: self.downgrade_time.deep_view(),
            sign: self.sign.deep_view(),
            upgrade_blocked: self.upgrade_blocked.deep_view(),
            user: self.user.deep_view(),
        }
    }
}

impl Updatable for StructureController {
    type Update = StructureControllerUpdate;

    open spec fn applied(v: StructureControllerView, u: StructureControllerUpdateView) -> StructureControllerView {
        StructureControllerView {
            id: applied_field::<String>(v.id, u.id),
            room: applied_field::<RoomName>(v.room, u.room),
            x: applied_field::<u32>(v.x, u.x),
            y: applied_field::<u32>(v.y, u.y),
            hits: applied_field::<i32>(v.hits, u.hits),
            hits_max: applied_field::<i32>(v.hits_max, u.hits_max),
            progress: applied_field::<u64>(v.progress, u.progress),
            progress_total: applied_field::<u64>(v.progress_total, u.progress_total),
            level: applied_field::<u16>(v.level, u.level),
            reservation: applied_field::<Option<ControllerReservation>>(v.reservation, u.reservation),
            safe_mode: applied_field::<Option<u32>>(v.safe_mode, u.safe_mode),
            safe_mode_available: applied_field::<u32>(v.safe_mode_available, u.safe_mode_available),
            safe_mode_cooldown: applied_field::<u32>(v.safe_mode_cooldown, u.safe_mode_cooldown),
            downgrade_time: applied_field::<Option<u64>>(v.downgrade_time, u.downgrade_time),
            sign: applied_field::<Option<RoomSign>>(v.sign, u.sign),
            upgrade_blocked: applied_field::<Option<u32>>(v.upgrade_blocked, u.upgrade_blocked),
            user: applied_field::<Option<String>>(v.user, u.user),
        }
    }

    open spec fn created(u: StructureControllerUpdateView) -> Option<StructureControllerView> {
        if created_field::<String>(u.id) is Some
            && created_field::<RoomName>(u.room) is Some
            && created_field::<u32>(u.x) is Some
            && created_field::<u32>(u.y) is Some
            && created_field::<i32>(u.hits) is Some
            && created_field::<i32>(u.hits_max) is Some
            && created_field::<u64>(u.progress) is Some
            && created_field::<u64>(u.progress_total) is Some
            && created_field::<u16>(u.level) is Some
            && created_field::<Option<ControllerReservation>>(u.reservation) is Some
            && created_field::<Option<u32>>(u.safe_mode) is Some
            && created_field::<u32>(u.safe_mode_available) is Some
            && created_field::<u32>(u.safe_mode_cooldown) is Some
            && created_field::<Option<u64>>(u.downgrade_time) is Some
            && created_field::<Option<RoomSign>>(u.sign) is Some
            && created_field::<Option<u32>>(u.upgrade_blocked) is Some
            && created_field::<Option<String>>(u.user) is Some {
            Some(
                StructureControllerView {
                    id: created_field::<String>(u.id)->0,
                    room: created_field::<RoomName>(u.room)->0,
                    x: created_field::<u32>(u.x)->0,
                    y: created_field::<u32>(u.y)->0,
                    hits: created_field::<i32>(u.hits)->0,
                    hits_max: created_field::<i32>(u.hits_max)->0,
                    progress: created_field::<u64>(u.progress)->0,
                    progress_total: created_field::<u64>(u.progress_total)->0,
                    level: created_field::<u16>(u.level)->0,
                    reservation: created_field::<Option<ControllerReservation>>(u.reservation)->0,
                    safe_mode: created_field::<Option<u32>>(u.safe_mode)->0,
                    safe_mode_available: created_field::<u32>(u.safe_mode_available)->0,
                    safe_mode_cooldown: created_field::<u32>(u.safe_mode_cooldown)->0,
                    downgrade_time: created_field::<Option<u64>>(u.downgrade_time)->0,
                    sign: created_field::<Option<RoomSign>>(u.sign)->0,
                    upgrade_blocked: created_field::<Option<u32>>(u.upgrade_blocked)->0,
                    user: created_field::<Option<String>>(u.user)->0,
                },
            )
        } else {
            None
        }
    }

    fn apply_update(&mut self, update: StructureControllerUpdate) {
        let StructureControllerUpdate { id, room, x, y, hits, hits_max, progress, progress_total, level, reservation, safe_mode, safe_mode_available, safe_mode_cooldown, downgrade_time, sign, upgrade_blocked, user } = update;
        apply_field(&mut self.id, id);
        apply_field(&mut self.room, room);
        apply_field(&mut self.x, x);
        apply_field(&mut self.y, y);
        apply_field(&mut self.hits, hits);
        apply_field(&mut self.hits_max, hits_max);
        apply_field(&mut self.progress, progress);
        apply_field(&mut self.progress_total, progress_total);
        apply_field(&mut self.level, level);
        apply_field(&mut self.reservation, reservation);
        apply_field(&mut self.safe_mode, safe_mode);
        apply_field(&mut self.safe_mode_available, safe_mode_available);
        apply_field(&mut self.safe_mode_cooldown, safe_mode_cooldown);
        apply_field(&mut self.downgrade_time, downgrade_time);
        apply_field(&mut self.sign, sign);
        apply_field(&mut self.upgrade_blocked, upgrade_blocked);
        apply_field(&mut self.user, user);
    }

    fn create_from_update(update: StructureControllerUpdate) -> (r: Option<StructureController>) {
        let StructureControllerUpdate { id, room, x, y, hits, hits_max, progress, progress_total, level, reservation, safe_mode, safe_mode_available, safe_mode_cooldown, downgrade_time, sign, upgrade_blocked, user } = update;
        let id = match id {
            Some(u) => match <String as Updatable>::create_from_update(u) {
                Some(v) => v,
                None => return None,
            },
            None => return None,
        };
        let room = match room {
            Some(u) => match <RoomName as Updatable>::create_from_update(u) {
                Some(v) => v,
                None => return None,
            },
            None => return None,
        };
        let x = match x {
            Some(u) => match <u32 as Updatable>::create_from_update(u) {
                Some(v) => v,
                None => return None,
            },
            None => return None,
        };
        let y = match y {
            Some(u) => match <u32 as Updatable>::create_from_update(u) {
                Some(v) => v,
                None => return None,
            },
            None => return None,
        };
        let hits = match hits {
            Some(u) => match <i32 as Updatable>::create_from_update(u) {
                Some(v) => v,
                None => return None,
            },
            None => return None,
        };
        let hits_max = match hits_max {
            Some(u) => match <i32 as Updatable>::create_from_update(u) {
                Some(v) => v,
                None => return None,
            },
            None => return None,
        };
        let progress = match progress {
            Some(u) => match <u64 as Updatable>::create_from_update(u) {
                Some(v) => v,
                None => return None,
            },
            None => return None,
        };
        let progress_total = match progress_total {
            Some(u) => match <u64 as Updatable>::create_from_update(u) {
                Some(v) => v,
                None => return None,
            },
            None => return None,
        };
        let level = match level {
            Some(u) => match <u16 as Updatable>::create_from_update(u) {
                Some(v) => v,
                None => return None,
            },
            None => return None,
        };
        let reservation = match reservation {
            Some(u) => match <Option<ControllerReservation> as Updatable>::create_from_update(u) {
                Some(v) => v,
                None => return None,
            },
            None => return None,
        };
        let safe_mode = match safe_mode {
            Some(u) => match <Option<u32> as Updatable>::create_from_update(u) {
                Some(v) => v,
                None => return None,
            },
            None => return None,
        };
        let safe_mode_available = match safe_mode_available {
            Some(u) => match <u32 as Updatable>::create_from_update(u) {
                Some(v) => v,
                None => return None,
            },
            None => return None,
        };
        let safe_mode_cooldown = match safe_mode_cooldown {
            Some(u) => match <u32 as Updatable>::create_from_update(u) {
                Some(v) => v,
                None => return None,
            },
            None => return None,
        };
        let downgrade_time = match downgrade_time {
            Some(u) => match <Option<u64> as Updatable>::create_from_update(u) {
                Some(v) => v,
                None => return None,
            },
            None => return None,
        };
        let sign = match sign {
            Some(u) => match <Option<RoomSign> as Updatable>::create_from_update(u) {
                Some(v) => v,
                None => return None,
            },
            None => return None,
        };
        let upgrade_blocked = match upgrade_blocked {
            Some(u) => match <Option<u32> as Updatable>::create_from_update(u) {
                Some(v) => v,
                None => return None,
            },
            None => return None,
        };
        let user = match user {
            Some(u) => match <Option<String> as Updatable>::create_from_update(u) {
                Some(v) => v,
                None => return None,
            },
            None => return None,
        };
        Some(StructureController { id, room, x, y, hits, hits_max, progress, progress_total, level, reservation, safe_mode, safe_mode_available, safe_mode_cooldown, downgrade_time, sign, upgrade_blocked, user })
    }
}

impl StructureController {
    /// Updates this structure with all values present in the given update.
    pub fn update(&mut self, update: StructureControllerUpdate)
        ensures
            final(self).deep_view() == <StructureController as Updatable>::applied(
                old(self).deep_view(),
                update.deep_view(),
            ),
    {
        self.apply_update(update);
    }
}

/// The upgrade progress a controller at `level` needs to reach the next level.
pub open spec fn progress_required_for(level: u16) -> Option<u32> {
    if level == 1 {
        Some(200)
    } else if level == 2 {
        Some(45000)
    } else if level == 3 {
        Some(135000)
    } else if level == 4 {
        Some(405000)
    } else if level == 5 {
        Some(1215000)
    } else if level == 6 {
        Some(3645000)
    } else if level == 7 {
        Some(10935000)
    } else {
        None
    }
}

/// The game ticks without an upgrade after which a controller at `level` loses a level.
pub open spec fn total_downgrade_time_for(level: u16) -> Option<u32> {
    if level == 1 {
        Some(20000)
    } else if level == 2 {
        Some(5000)
    } else if level == 3 {
        Some(10000)
    } else if level == 4 {
        Some(20000)
    } else if level == 5 {
        Some(40000)
    } else if level == 6 {
        Some(60000)
    } else if level == 7 {
        Some(100000)
    } else if level == 8 {
        Some(150000)
    } else {
        None
    }
}

/// The progress a controller needs grows with its level as the game sets it: 200 at level 1,
/// 45000 at level 2, and three times the level before at each level from 3 to 7; a controller
/// at level 8 (the highest) or at no valid level needs none.
pub proof fn lemma_progress_required_growth(level: u16)
    ensures
        progress_required_for(level) is Some <==> 1 <= level <= 7,
        level == 1 ==> progress_required_for(level) == Some(200u32),
        level == 2 ==> progress_required_for(level) == Some(45000u32),
        3 <= level <= 7 ==> progress_required_for(level)->0 == 3 * progress_required_for(
            (level - 1) as u16,
        )->0,
{
}

/// The ticks without an upgrade after which a controller loses a level, per level as the game
/// sets them: 20000 at level 1, 5000 at level 2, then 10000, 20000, 40000, 60000, 100000 and
/// 150000 at levels 3 to 8; there is none at any other level. From level 2 on, a higher level
/// takes longer to lose.
pub proof fn lemma_total_downgrade_time_table(level: u16)
    ensures
        total_downgrade_time_for(level) is Some <==> 1 <= level <= 8,
        level == 1 ==> total_downgrade_time_for(level) == Some(20000u32),
        level == 2 ==> total_downgrade_time_for(level) == Some(5000u32),
        level == 3 ==> total_downgrade_time_for(level) == Some(10000u32),
        level == 4 ==> total_downgrade_time_for(level) == Some(20000u32),
        level == 5 ==> total_downgrade_time_for(level) == Some(40000u32),
        level == 6 ==> total_downgrade_time_for(level) == Some(60000u32),
        level == 7 ==> total_downgrade_time_for(level) == Some(100000u32),
        level == 8 ==> total_downgrade_time_for(level) == Some(150000u32),
        3 <= level <= 8 ==> total_downgrade_time_for((level - 1) as u16)->0
            < total_downgrade_time_for(level)->0,
{
}

impl StructureController {
    /// The progress required for this controller's level (100% dependent on `level`).
    ///
    /// Returns `None` if level is outside of 1..=7.
    ///
    /// See also [`StructureController::progress_required_at_level`].
    pub fn progress_required(&self) -> (r: Option<u32>)
        ensures
            r == progress_required_for(self.level),
    {
        Self::progress_required_at_level(self.level)
    }

    /// Progress required for a level.
    pub fn progress_required_at_level(level: u16) -> (r: Option<u32>)
        ensures
            r == progress_required_for(level),
    {
        match level {
            1 => Some(200),
            2 => Some(45000),
            3 => Some(135000),
            4 => Some(405000),
            5 => Some(1215000),
            6 => Some(3645000),
            7 => Some(10935000),
            _ => None,
        }
    }

    /// The total downgrade time for this controller's level (100% dependent on `level`)
    ///
    /// Returns `None` if level is outside of 1..=8.
    ///
    /// See also [`StructureController::total_downgrade_time_at_level`]
    pub fn total_downgrade_time(&self) -> (r: Option<u32>)
        ensures
            r == total_downgrade_time_for(self.level),
    {
        Self::total_downgrade_time_at_level(self.level)
    }

    /// Total downgrade time for a level (game ticks since the last upgrade that this controller will lose a level).
    pub fn total_downgrade_time_at_level(level: u16) -> (r: Option<u32>)
        ensures
            r == total_downgrade_time_for(level),
    {
        match level {
            1 => Some(20000),
            2 => Some(5000),
            3 => Some(10000),
            4 => Some(20000),
            5 => Some(40000),
            6 => Some(60000),
            7 => Some(100000),
            8 => Some(150000),
            _ => None,
        }
    }
}

/// A controller level has a required progress exactly when it is one of 1 to 7: level 8 is the
/// last, and there are no others.
pub proof fn lemma_progress_required_levels(level: u16)
    ensures
        progress_required_for(level) is Some <==> 1 <= level <= 7,
{
}

/// A controller level has a downgrade time exactly when it is one of 1 to 8.
pub proof fn lemma_total_downgrade_time_levels(level: u16)
    ensures
        total_downgrade_time_for(level) is Some <==> 1 <= level <= 8,
{
}

} // verus!
