//! `Resource` data description.
use vstd::prelude::*;

use crate::resources::{resource_text, ResourceType};
use crate::room_name::RoomName;
use crate::text::{chars_of, segment_equals};
use crate::updatable::{Updatable, apply_field, applied_field, created_field};

verus! {

/// A resource, a bit of some resource which has dropped on the ground, and is decaying each tick.
#[derive(Clone, Debug, PartialEq)]
pub struct Resource {
    /// Unique 'id' identifier for all game objects on a server.
    pub id: String,
    /// Room object is in.
    pub room: RoomName,
    /// X position within the room (0-50).
    pub x: u32,
    /// Y position within the room (0-50).
    pub y: u32,
    /// Resource type that this resource is.
    pub resource_type: ResourceType,
    /// Resource amount that this resource is.
    pub amount: i32,
}

/// The abstract value of a `Resource`.
pub struct ResourceView {
    pub id: Seq<char>,
    pub room: RoomName,
    pub x: u32,
    pub y: u32,
    pub resource_type: ResourceType,
    pub amount: i32,
}

/// Update structure for a `Resource`.
///
/// Each field that is present replaces or updates the field of the same name.
#[derive(Clone, Debug, Default)]
pub struct ResourceUpdate {
    pub id: Option<String>,
    pub room: Option<RoomName>,
    pub x: Option<u32>,
    pub y: Option<u32>,
    pub resource_type: Option<ResourceType>,
    pub amount: Option<i32>,
}

/// The abstract value of a `ResourceUpdate`.
pub struct ResourceUpdateView {
    pub id: Option<Seq<char>>,
    pub room: Option<RoomName>,
    pub x: Option<u32>,
    pub y: Option<u32>,
    pub resource_type: Option<ResourceType>,
    pub amount: Option<i32>,
}

impl DeepView for Resource {
    type V = ResourceView;

    open spec fn deep_view(&self) -> ResourceView {
        ResourceView {
            id: self.id.deep_view(),
            room: self.room.deep_view(),
            x: self.x.deep_view(),
            y: self.y.deep_view(),
            resource_type: self.resource_type.deep_view(),
            amount: self.amount.deep_view(),
        }
    }
}

impl DeepView for ResourceUpdate {
    type V = ResourceUpdateView;

    open spec fn deep_view(&self) -> ResourceUpdateView {
        ResourceUpdateView {
            id: self.id.deep_view(),
            room: self.room.deep_view(),
            x: self.x.deep_view(),
            y: self.y.deep_view(),
            resource_type: self.resource_type.deep_view(),
            amount: self.amount.deep_view(),
        }
    }
}

impl Updatable for Resource {
    type Update = ResourceUpdate;

    open spec fn applied(v: ResourceView, u: ResourceUpdateView) -> ResourceView {
        ResourceView {
            id: applied_field::<String>(v.id, u.id),
            room: applied_field::<RoomName>(v.room, u.room),
            x: applied_field::<u32>(v.x, u.x),
            y: applied_field::<u32>(v.y, u.y),
            resource_type: applied_field::<ResourceType>(v.resource_type, u.resource_type),
            amount: applied_field::<i32>(v.amount, u.amount),
        }
    }

    open spec fn created(u: ResourceUpdateView) -> Option<ResourceView> {
        if created_field::<String>(u.id) is Some
            && created_field::<RoomName>(u.room) is Some
            && created_field::<u32>(u.x) is Some
            && created_field::<u32>(u.y) is Some
            && created_field::<ResourceType>(u.resource_type) is Some
            && created_field::<i32>(u.amount) is Some {
            Some(
                ResourceView {
                    id: created_field::<String>(u.id)->0,
                    room: created_field::<RoomName>(u.room)->0,
                    x: created_field::<u32>(u.x)->0,
                    y: created_field::<u32>(u.y)->0,
                    resource_type: created_field::<ResourceType>(u.resource_type)->0,
                    amount: created_field::<i32>(u.amount)->0,
                },
            )
        } else {
            None
        }
    }

    fn apply_update(&mut self, update: ResourceUpdate) {
        let ResourceUpdate { id, room, x, y, resource_type, amount } = update;
        apply_field(&mut self.id, id);
        apply_field(&mut self.room, room);
        apply_field(&mut self.x, x);
        apply_field(&mut self.y, y);
        apply_field(&mut self.resource_type, resource_type);
        apply_field(&mut self.amount, amount);
    }

    fn create_from_update(update: ResourceUpdate) -> (r: Option<Resource>) {
        let ResourceUpdate { id, room, x, y, resource_type, amount } = update;
        let id = match id {
            Some(u) => match <String as Updatable>::create_from_update(u) {
                Some(v) => v,
                None => return None,
            },
            None => return None,
        };
        let room = match room {
            Some(u) => match <RoomName as Updatable>::create_from_update(u) {
                Some(v) => v,
                None => return None,
            },
            None => return None,
        };
        let x = match x {
            Some(u) => match <u32 as Updatable>::create_from_update(u) {
                Some(v) => v,
                None => return None,
            },
            None => return None,
        };
        let y = match y {
            Some(u) => match <u32 as Updatable>::create_from_update(u) {
                Some(v) => v,
                None => return None,
            },
            None => return None,
        };
        let resource_type = match resource_type {
            Some(u) => match <ResourceType as Updatable>::create_from_update(u) {
                Some(v) => v,
                None => return None,
            },
            None => return None,
        };
        let amount = match amount {
            Some(u) => match <i32 as Updatable>::create_from_update(u) {
                Some(v) => v,
                None => return None,
            },
            None => return None,
        };
        Some(Resource { id, room, x, y, resource_type, amount })
    }
}

impl Resource {
    /// Updates this structure with all values present in the given update.
    pub fn update(&mut self, update: ResourceUpdate)
        ensures
            final(self).deep_view() == <Resource as Updatable>::applied(
                old(self).deep_view(),
                update.deep_view(),
            ),
    {
        self.apply_update(update);
    }
}

/// A key of the map that the server sends for a resource lying on the ground.
#[derive(Copy, Clone, Debug, PartialEq, Eq, Structural)]
pub enum ResourceField {
    /// `_id`.
    Id,
    /// `room`.
    Room,
    /// `x`.
    X,
    /// `y`.
    Y,
    /// `resourceType`.
    ResourceType,
    /// A key that is the in-game string of a resource type: the amount of that resource.
    Other(ResourceType),
    /// Any other key.
    Ignored,
}

/// The key that the server names by `key`.
pub open spec fn resource_field_matches(key: Seq<char>, f: ResourceField) -> bool {
    if key == "_id"@ {
        f == ResourceField::Id
    } else if key == "room"@ {
        f == ResourceField::Room
    } else if key == "x"@ {
        f == ResourceField::X
    } else if key == "y"@ {
        f == ResourceField::Y
    } else if key == "resourceType"@ {
        f == ResourceField::ResourceType
    } else {
        match f {
            ResourceField::Other(t) => resource_text(t) == key,
            ResourceField::Ignored => forall|t: ResourceType| resource_text(t) != key,
            _ => false,
        }
    }
}

impl ResourceField {
    /// Classifies a key of a resource's map.
    pub fn from_key(key: &str) -> (r: ResourceField)
        ensures
            resource_field_matches(key@, r),
    {
        let cs = chars_of(key);
        let n = cs.len();
        assert(cs@.subrange(0, n as int) =~= cs@);
        if segment_equals(&cs, 0, n, "_id") {
            ResourceField::Id
        } else if segment_equals(&cs, 0, n, "room") {
            ResourceField::Room
        } else if segment_equals(&cs, 0, n, "x") {
            ResourceField::X
        } else if segment_equals(&cs, 0, n, "y") {
            ResourceField::Y
        } else if segment_equals(&cs, 0, n, "resourceType") {
            ResourceField::ResourceType
        } else {
            match ResourceType::from_resource_string(key) {
                Some(t) => ResourceField::Other(t),
                None => ResourceField::Ignored,
            }
        }
    }
}

/// The fields of a resource, each named by what the server calls it in errors.
#[derive(Copy, Clone, Debug, PartialEq, Eq, Structural)]
pub enum ResourceFieldName {
    /// `_id`.
    Id,
    /// `room`.
    Room,
    /// `x`.
    X,
    /// `y`.
    Y,
    /// `resourceType`.
    ResourceType,
    /// The amount, in the field named by the resource type.
    Amount,
}

/// What went wrong while reading a resource.
#[derive(Copy, Clone, Debug, PartialEq, Eq, Structural)]
pub enum ResourceError {
    /// A field occurred twice.
    DuplicateField(ResourceFieldName),
    /// A field that a resource needs did not occur.
    MissingField(ResourceFieldName),
    /// The `resourceType` field and the name of the amount field name different resource types.
    TypeMismatch {
        /// The value of the `resourceType` field.
        declared: ResourceType,
        /// The resource type that names the amount field.
        found: ResourceType,
    },
}

/// A value read for one key of a resource's map.
#[derive(Clone, Debug)]
pub enum ResourceFieldValue {
    /// The value of `_id`.
    Id(String),
    /// The value of `room`.
    Room(RoomName),
    /// The value of `x`.
    X(u32),
    /// The value of `y`.
    Y(u32),
    /// The value of `resourceType`.
    ResourceType(ResourceType),
    /// The amount, under the key named by a resource type.
    Amount(ResourceType, i32),
    /// The value of a key that a resource does not use.
    Ignored,
}

/// A value read for one key of a resource update's map: the amount may be null.
#[derive(Clone, Debug)]
pub enum ResourceUpdateFieldValue {
    /// The value of `_id`.
    Id(String),
    /// The value of `room`.
    Room(RoomName),
    /// The value of `x`.
    X(u32),
    /// The value of `y`.
    Y(u32),
    /// The value of `resourceType`.
    ResourceType(ResourceType),
    /// The amount, under the key named by a resource type, or null.
    Amount(Option<i32>),
    /// The value of a key that a resource does not use.
    Ignored,
}

/// The abstract value of a `ResourceFieldValue` or a `ResourceUpdateFieldValue`.
pub enum ResourceFieldValueView {
    Id(Seq<char>),
    Room(RoomName),
    X(u32),
    Y(u32),
    ResourceType(ResourceType),
    Amount(ResourceType, i32),
    NullableAmount(Option<i32>),
    Ignored,
}

impl DeepView for ResourceFieldValue {
    type V = ResourceFieldValueView;

    open spec fn deep_view(&self) -> ResourceFieldValueView {
        match self {
            ResourceFieldValue::Id(s) => ResourceFieldValueView::Id(s@),
            ResourceFieldValue::Room(r) => ResourceFieldValueView::Room(*r),
            ResourceFieldValue::X(x) => ResourceFieldValueView::X(*x),
            ResourceFieldValue::Y(y) => ResourceFieldValueView::Y(*y),
            ResourceFieldValue::ResourceType(t) => ResourceFieldValueView::ResourceType(*t),
            ResourceFieldValue::Amount(t, a) => ResourceFieldValueView::Amount(*t, *a),
            ResourceFieldValue::Ignored => ResourceFieldValueView::Ignored,
        }
    }
}

impl DeepView for ResourceUpdateFieldValue {
    type V = ResourceFieldValueView;

    open spec fn deep_view(&self) -> ResourceFieldValueView {
        match self {
            ResourceUpdateFieldValue::Id(s) => ResourceFieldValueView::Id(s@),
            ResourceUpdateFieldValue::Room(r) => ResourceFieldValueView::Room(*r),
            ResourceUpdateFieldValue::X(x) => ResourceFieldValueView::X(*x),
            ResourceUpdateFieldValue::Y(y) => ResourceFieldValueView::Y(*y),
            ResourceUpdateFieldValue::ResourceType(t) => ResourceFieldValueView::ResourceType(*t),
            ResourceUpdateFieldValue::Amount(a) => ResourceFieldValueView::NullableAmount(*a),
            ResourceUpdateFieldValue::Ignored => ResourceFieldValueView::Ignored,
        }
    }
}

/// The fields of a resource read so far.
#[derive(Clone, Debug, Default)]
pub struct ResourceFields {
    /// The `_id` read, if any.
    pub id: Option<String>,
    /// The `room` read, if any.
    pub room: Option<RoomName>,
    /// The `x` read, if any.
    pub x: Option<u32>,
    /// The `y` read, if any.
    pub y: Option<u32>,
    /// The `resourceType` read, if any.
    pub resource_type: Option<ResourceType>,
    /// The amount read, with the resource type that named its key, if any.
    pub amount: Option<(ResourceType, i32)>,
}

/// The abstract value of a `ResourceFields`.
pub struct ResourceFieldsView {
    pub id: Option<Seq<char>>,
    pub room: Option<RoomName>,
    pub x: Option<u32>,
    pub y: Option<u32>,
    pub resource_type: Option<ResourceType>,
    pub amount: Option<(ResourceType, i32)>,
}

impl DeepView for ResourceFields {
    type V = ResourceFieldsView;

    open spec fn deep_view(&self) -> ResourceFieldsView {
        ResourceFieldsView {
            id: self.id.deep_view(),
            room: self.room,
            x: self.x,
            y: self.y,
            resource_type: self.resource_type,
            amount: self.amount,
        }
    }
}

/// The fields after one more value is read: a field read a second time is refused.
pub open spec fn fields_accepted(f: ResourceFieldsView, v: ResourceFieldValueView) -> Result<
    ResourceFieldsView,
    ResourceError,
> {
    match v {
        ResourceFieldValueView::Id(s) => if f.id is Some {
            Err(ResourceError::DuplicateField(ResourceFieldName::Id))
        } else {
            Ok(ResourceFieldsView { id: Some(s), ..f })
        },
        ResourceFieldValueView::Room(r) => if f.room is Some {
            Err(ResourceError::DuplicateField(ResourceFieldName::Room))
        } else {
            Ok(ResourceFieldsView { room: Some(r), ..f })
        },
        ResourceFieldValueView::X(x) => if f.x is Some {
            Err(ResourceError::DuplicateField(ResourceFieldName::X))
        } else {
            Ok(ResourceFieldsView { x: Some(x), ..f })
        },
        ResourceFieldValueView::Y(y) => if f.y is Some {
            Err(ResourceError::DuplicateField(ResourceFieldName::Y))
        } else {
            Ok(ResourceFieldsView { y: Some(y), ..f })
        },
        ResourceFieldValueView::ResourceType(t) => if f.resource_type is Some {
            Err(ResourceError::DuplicateField(ResourceFieldName::ResourceType))
        } else {
            Ok(ResourceFieldsView { resource_type: Some(t), ..f })
        },
        ResourceFieldValueView::Amount(t, a) => if f.amount is Some {
            Err(ResourceError::DuplicateField(ResourceFieldName::Amount))
        } else {
            Ok(ResourceFieldsView { amount: Some((t, a)), ..f })
        },
        _ => Ok(f),
    }
}

/// The resource that the fields read describe: each field must be there, and the amount must
/// be named by the declared resource type.
pub open spec fn fields_finished(f: ResourceFieldsView) -> Result<ResourceView, ResourceError> {
    if f.id is None {
        Err(ResourceError::MissingField(ResourceFieldName::Id))
    } else if f.room is None {
        Err(ResourceError::MissingField(ResourceFieldName::Room))
    } else if f.x is None {
        Err(ResourceError::MissingField(ResourceFieldName::X))
    } else if f.y is None {
        Err(ResourceError::MissingField(ResourceFieldName::Y))
    } else if f.resource_type is None {
        Err(ResourceError::MissingField(ResourceFieldName::ResourceType))
    } else if f.amount is None {
        Err(ResourceError::MissingField(ResourceFieldName::Amount))
    } else if f.resource_type->0 != (f.amount->0).0 {
        Err(
            ResourceError::TypeMismatch {
                declared: f.resource_type->0,
                found: (f.amount->0).0,
            },
        )
    } else {
        Ok(
            ResourceView {
                id: f.id->0,
                room: f.room->0,
                x: f.x->0,
                y: f.y->0,
                resource_type: f.resource_type->0,
                amount: (f.amount->0).1,
            },
        )
    }
}

impl ResourceFields {
    /// No field read yet.
    pub fn new() -> (r: Self)
        ensures
            r.id is None,
            r.room is None,
            r.x is None,
            r.y is None,
            r.resource_type is None,
            r.amount is None,
    {
        ResourceFields { id: None, room: None, x: None, y: None, resource_type: None, amount: None }
    }

    /// Takes the value read for one key. A field read a second time is refused, and the
    /// fields are left as they were.
    pub fn accept(&mut self, value: ResourceFieldValue) -> (r: Result<(), ResourceError>)
        ensures
            match fields_accepted(old(self).deep_view(), value.deep_view()) {
                Ok(n) => r is Ok && final(self).deep_view() == n,
                Err(e) => r == Err::<(), ResourceError>(e) && final(self).deep_view() == old(
                    self,
                ).deep_view(),
            },
    {
        match value {
            ResourceFieldValue::Id(s) => {
                if self.id.is_some() {
                    return Err(ResourceError::DuplicateField(ResourceFieldName::Id));
                }
                self.id = Some(s);
            },
            ResourceFieldValue::Room(v) => {
                if self.room.is_some() {
                    return Err(ResourceError::DuplicateField(ResourceFieldName::Room));
                }
                self.room = Some(v);
            },
            ResourceFieldValue::X(v) => {
                if self.x.is_some() {
                    return Err(ResourceError::DuplicateField(ResourceFieldName::X));
                }
                self.x = Some(v);
            },
            ResourceFieldValue::Y(v) => {
                if self.y.is_some() {
                    return Err(ResourceError::DuplicateField(ResourceFieldName::Y));
                }
                self.y = Some(v);
            },
            ResourceFieldValue::ResourceType(v) => {
                if self.resource_type.is_some() {
                    return Err(ResourceError::DuplicateField(ResourceFieldName::ResourceType));
                }
                self.resource_type = Some(v);
            },
            ResourceFieldValue::Amount(t, a) => {
                if self.amount.is_some() {
                    return Err(ResourceError::DuplicateField(ResourceFieldName::Amount));
                }
                self.amount = Some((t, a));
            },
            ResourceFieldValue::Ignored => {},
        }
        Ok(())
    }

    /// The resource that the fields read describe.
    pub fn finish(self) -> (r: Result<Resource, ResourceError>)
        ensures
            match fields_finished(self.deep_view()) {
                Ok(v) => r is Ok && r->Ok_0.deep_view() == v,
                Err(e) => r == Err::<Resource, ResourceError>(e),
            },
    {
        let ResourceFields { id, room, x, y, resource_type, amount } = self;
        let id = match id {
            Some(v) => v,
            None => return Err(ResourceError::MissingField(ResourceFieldName::Id)),
        };
        let room = match room {
            Some(v) => v,
            None => return Err(ResourceError::MissingField(ResourceFieldName::Room)),
        };
        let x = match x {
            Some(v) => v,
            None => return Err(ResourceError::MissingField(ResourceFieldName::X)),
        };
        let y = match y {
            Some(v) => v,
            None => return Err(ResourceError::MissingField(ResourceFieldName::Y)),
        };
        let resource_type = match resource_type {
            Some(v) => v,
            None => return Err(ResourceError::MissingField(ResourceFieldName::ResourceType)),
        };
        let (found, amount) = match amount {
            Some(v) => v,
            None => return Err(ResourceError::MissingField(ResourceFieldName::Amount)),
        };
        if resource_type != found {
            return Err(ResourceError::TypeMismatch { declared: resource_type, found });
        }
        Ok(Resource { id, room, x, y, resource_type, amount })
    }
}

/// The fields of a resource update read so far.
#[derive(Clone, Debug, Default)]
pub struct ResourceUpdateFields {
    /// The fields read so far, as an update.
    pub update: ResourceUpdate,
}

/// The update after one more value is read: a field read a second time is refused, and a null
/// amount is passed over.
pub open spec fn update_fields_accepted(
    f: ResourceUpdateView,
    v: ResourceFieldValueView,
) -> Result<ResourceUpdateView, ResourceError> {
    match v {
        ResourceFieldValueView::Id(s) => if f.id is Some {
            Err(ResourceError::DuplicateField(ResourceFieldName::Id))
        } else {
            Ok(ResourceUpdateView { id: Some(s), ..f })
        },
        ResourceFieldValueView::Room(r) => if f.room is Some {
            Err(ResourceError::DuplicateField(ResourceFieldName::Room))
        } else {
            Ok(ResourceUpdateView { room: Some(r), ..f })
        },
        ResourceFieldValueView::X(x) => if f.x is Some {
            Err(ResourceError::DuplicateField(ResourceFieldName::X))
        } else {
            Ok(ResourceUpdateView { x: Some(x), ..f })
        },
        ResourceFieldValueView::Y(y) => if f.y is Some {
            Err(ResourceError::DuplicateField(ResourceFieldName::Y))
        } else {
            Ok(ResourceUpdateView { y: Some(y), ..f })
        },
        ResourceFieldValueView::ResourceType(t) => if f.resource_type is Some {
            Err(ResourceError::DuplicateField(ResourceFieldName::ResourceType))
        } else {
            Ok(ResourceUpdateView { resource_type: Some(t), ..f })
        },
        ResourceFieldValueView::NullableAmount(Some(a)) => if f.amount is Some {
            Err(ResourceError::DuplicateField(ResourceFieldName::Amount))
        } else {
            Ok(ResourceUpdateView { amount: Some(a), ..f })
        },
        _ => Ok(f),
    }
}

impl ResourceUpdateFields {
    /// No field read yet.
    pub fn new() -> (r: Self)
        ensures
            r.update.id is None,
            r.update.room is None,
            r.update.x is None,
            r.update.y is None,
            r.update.resource_type is None,
            r.update.amount is None,
    {
        ResourceUpdateFields {
            update: ResourceUpdate {
                id: None,
                room: None,
                x: None,
                y: None,
                resource_type: None,
                amount: None,
            },
        }
    }

    /// Takes the value read for one key. A field read a second time is refused, and the
    /// fields are left as they were; a null amount is passed over.
    pub fn accept(&mut self, value: ResourceUpdateFieldValue) -> (r: Result<(), ResourceError>)
        ensures
            match update_fields_accepted(old(self).update.deep_view(), value.deep_view()) {
                Ok(n) => r is Ok && final(self).update.deep_view() == n,
                Err(e) => r == Err::<(), ResourceError>(e) && final(self).update.deep_view()
                    == old(self).update.deep_view(),
            },
    {
        match value {
            ResourceUpdateFieldValue::Id(s) => {
                if self.update.id.is_some() {
                    return Err(ResourceError::DuplicateField(ResourceFieldName::Id));
                }
                self.update.id = Some(s);
            },
            ResourceUpdateFieldValue::Room(v) => {
                if self.update.room.is_some() {
                    return Err(ResourceError::DuplicateField(ResourceFieldName::Room));
                }
                self.update.room = Some(v);
            },
            ResourceUpdateFieldValue::X(v) => {
                if self.update.x.is_some() {
                    return Err(ResourceError::DuplicateField(ResourceFieldName::X));
                }
                self.update.x = Some(v);
            },
            ResourceUpdateFieldValue::Y(v) => {
                if self.update.y.is_some() {
                    return Err(ResourceError::DuplicateField(ResourceFieldName::Y));
                }
                self.update.y = Some(v);
            },
            ResourceUpdateFieldValue::ResourceType(v) => {
                if self.update.resource_type.is_some() {
                    return Err(ResourceError::DuplicateField(ResourceFieldName::ResourceType));
                }
                self.update.resource_type = Some(v);
            },
            ResourceUpdateFieldValue::Amount(Some(a)) => {
                if self.update.amount.is_some() {
                    return Err(ResourceError::DuplicateField(ResourceFieldName::Amount));
                }
                self.update.amount = Some(a);
            },
            ResourceUpdateFieldValue::Amount(None) => {},
            ResourceUpdateFieldValue::Ignored => {},
        }
        Ok(())
    }
}

} // verus!
