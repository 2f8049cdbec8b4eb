//! Structures which are shared and exist as sub-field of multiple structures.
use vstd::prelude::*;

use crate::updatable::{Updatable, apply_field, applied_field, created_field};

verus! {

/// A struct describing the destination of various actions within action logs.
#[derive(Clone, Debug, PartialEq)]
pub struct ActionLogTarget {
    /// The in-room x position of this target.
    pub x: u32,
    /// The in-room x position of this target.
    pub y: u32,
}

/// The abstract value of an `ActionLogTarget`.
pub struct ActionLogTargetView {
    pub x: u32,
    pub y: u32,
}

/// The update structure for an `ActionLogTarget`.
///
/// Each field that is present replaces or updates the field of the same name.
#[derive(Clone, Debug, Default)]
pub struct ActionLogTargetUpdate {
    pub x: Option<u32>,
    pub y: Option<u32>,
}

/// The abstract value of an `ActionLogTargetUpdate`.
pub struct ActionLogTargetUpdateView {
    pub x: Option<u32>,
    pub y: Option<u32>,
}

impl DeepView for ActionLogTarget {
    type V = ActionLogTargetView;

    open spec fn deep_view(&self) -> ActionLogTargetView {
        ActionLogTargetView {
            x: self.x.deep_view(),
            y: self.y.deep_view(),
        }
    }
}

impl DeepView for ActionLogTargetUpdate {
    type V = ActionLogTargetUpdateView;

    open spec fn deep_view(&self) -> ActionLogTargetUpdateView {
        ActionLogTargetUpdateView {
            x: self.x.deep_view(),
            y: self.y.deep_view(),
        }
    }
}

impl Updatable for ActionLogTarget {
    type Update = ActionLogTargetUpdate;

    open spec fn applied(v: ActionLogTargetView, u: ActionLogTargetUpdateView) -> ActionLogTargetView {
        ActionLogTargetView {
            x: applied_field::<u32>(v.x, u.x),
            y: applied_field::<u32>(v.y, u.y),
        }
    }

    open spec fn created(u: ActionLogTargetUpdateView) -> Option<ActionLogTargetView> {
        if created_field::<u32>(u.x) is Some
            && created_field::<u32>(u.y) is Some {
            Some(
                ActionLogTargetView {
                    x: created_field::<u32>(u.x)->0,
                    y: created_field::<u32>(u.y)->0,
                },
            )
        } else {
            None
        }
    }

    fn apply_update(&mut self, update: ActionLogTargetUpdate) {
        let ActionLogTargetUpdate { x, y } = update;
        apply_field(&mut self.x, x);
        apply_field(&mut self.y, y);
    }

    fn create_from_update(update: ActionLogTargetUpdate) -> (r: Option<ActionLogTarget>) {
        let ActionLogTargetUpdate { x, y } = update;
        let x = match x {
            Some(u) => match <u32 as Updatable>::create_from_update(u) {
                Some(v) => v,
                None => return None,
            },
            None => return None,
        };
        let y = match y {
            Some(u) => match <u32 as Updatable>::create_from_update(u) {
                Some(v) => v,
                None => return None,
            },
            None => return None,
        };
        Some(ActionLogTarget { x, y })
    }
}

impl ActionLogTarget {
    /// Updates this structure with all values present in the given update.
    pub fn update(&mut self, update: ActionLogTargetUpdate)
        ensures
            final(self).deep_view() == <ActionLogTarget as Updatable>::applied(
                old(self).deep_view(),
                update.deep_view(),
            ),
    {
        self.apply_update(update);
    }
}

} // verus!
