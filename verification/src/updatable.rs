//! Values that the server keeps up to date with partial updates.
use vstd::prelude::*;

use crate::decimal::{parse_unsigned, parse_unsigned_chars};
use crate::resources::ResourceType;
use crate::room_name::RoomName;
use crate::text::chars_of;

verus! {

/// A value that can be brought up to date with an update that names only what changed.
///
/// `applied` and `created` say, over the values' deep views, what `apply_update` and
/// `create_from_update` compute.
pub trait Updatable: Sized + DeepView {
    /// The update structure.
    type Update: DeepView;

    /// The value that `v` becomes when the update `u` is applied to it.
    spec fn applied(v: Self::V, u: <Self::Update as DeepView>::V) -> Self::V;

    /// The value that the update `u` describes on its own, if it describes a whole one.
    spec fn created(u: <Self::Update as DeepView>::V) -> Option<Self::V>;

    /// Updates this value with everything present in the update.
    fn apply_update(&mut self, update: Self::Update)
        ensures
            final(self).deep_view() == Self::applied(old(self).deep_view(), update.deep_view()),
    ;

    /// If the update describes a whole value, creates that value. Otherwise, returns None.
    fn create_from_update(update: Self::Update) -> (r: Option<Self>)
        ensures
            r.deep_view() == Self::created(update.deep_view()),
    ;
}

/// A field after an update that may name it: updated where the update names it, unchanged
/// otherwise.
pub open spec fn applied_field<T: Updatable>(
    v: T::V,
    u: Option<<T::Update as DeepView>::V>,
) -> T::V {
    match u {
        Some(x) => T::applied(v, x),
        None => v,
    }
}

/// A field created from an update that may name it: only where the update names it and
/// describes a whole value.
pub open spec fn created_field<T: Updatable>(u: Option<<T::Update as DeepView>::V>) -> Option<
    T::V,
> {
    match u {
        Some(x) => T::created(x),
        None => None,
    }
}

/// Updates the field `v` with `u`, where the update names it.
pub fn apply_field<T: Updatable>(v: &mut T, u: Option<T::Update>)
    ensures
        final(v).deep_view() == applied_field::<T>(old(v).deep_view(), u.deep_view()),
{
    if let Some(x) = u {
        v.apply_update(x);
    }
}

/// A point in time as seconds and nanoseconds since the Unix epoch.
#[derive(Copy, Clone, Debug, PartialEq, Eq, PartialOrd, Ord, Hash, Structural)]
pub struct Timespec {
    /// Whole seconds.
    pub sec: i64,
    /// Additional nanoseconds.
    pub nsec: i32,
}

impl DeepView for Timespec {
    type V = Timespec;

    open spec fn deep_view(&self) -> Timespec {
        *self
    }
}

impl DeepView for RoomName {
    type V = RoomName;

    open spec fn deep_view(&self) -> RoomName {
        *self
    }
}

impl DeepView for ResourceType {
    type V = ResourceType;

    open spec fn deep_view(&self) -> ResourceType {
        *self
    }
}

impl Updatable for u32 {
    type Update = u32;

    open spec fn applied(v: u32, u: u32) -> u32 {
        u
    }

    open spec fn created(u: u32) -> Option<u32> {
        Some(u)
    }

    fn apply_update(&mut self, update: u32) {
        *self = update;
    }

    fn create_from_update(update: u32) -> (r: Option<u32>) {
        Some(update)
    }
}

impl Updatable for bool {
    type Update = bool;

    open spec fn applied(v: bool, u: bool) -> bool {
        u
    }

    open spec fn created(u: bool) -> Option<bool> {
        Some(u)
    }

    fn apply_update(&mut self, update: bool) {
        *self = update;
    }

    fn create_from_update(update: bool) -> (r: Option<bool>) {
        Some(update)
    }
}

impl Updatable for u8 {
    type Update = u8;

    open spec fn applied(v: u8, u: u8) -> u8 {
        u
    }

    open spec fn created(u: u8) -> Option<u8> {
        Some(u)
    }

    fn apply_update(&mut self, update: u8) {
        *self = update;
    }

    fn create_from_update(update: u8) -> (r: Option<u8>) {
        Some(update)
    }
}

impl Updatable for u16 {
    type Update = u16;

    open spec fn applied(v: u16, u: u16) -> u16 {
        u
    }

    open spec fn created(u: u16) -> Option<u16> {
        Some(u)
    }

    fn apply_update(&mut self, update: u16) {
        *self = update;
    }

    fn create_from_update(update: u16) -> (r: Option<u16>) {
        Some(update)
    }
}

impl Updatable for u64 {
    type Update = u64;

    open spec fn applied(v: u64, u: u64) -> u64 {
        u
    }

    open spec fn created(u: u64) -> Option<u64> {
        Some(u)
    }

    fn apply_update(&mut self, update: u64) {
        *self = update;
    }

    fn create_from_update(update: u64) -> (r: Option<u64>) {
        Some(update)
    }
}

impl Updatable for i8 {
    type Update = i8;

    open spec fn applied(v: i8, u: i8) -> i8 {
        u
    }

    open spec fn created(u: i8) -> Option<i8> {
        Some(u)
    }

    fn apply_update(&mut self, update: i8) {
        *self = update;
    }

    fn create_from_update(update: i8) -> (r: Option<i8>) {
        Some(update)
    }
}

impl Updatable for i16 {
    type Update = i16;

    open spec fn applied(v: i16, u: i16) -> i16 {
        u
    }

    open spec fn created(u: i16) -> Option<i16> {
        Some(u)
    }

    fn apply_update(&mut self, update: i16) {
        *self = update;
    }

    fn create_from_update(update: i16) -> (r: Option<i16>) {
        Some(update)
    }
}

impl Updatable for i32 {
    type Update = i32;

    open spec fn applied(v: i32, u: i32) -> i32 {
        u
    }

    open spec fn created(u: i32) -> Option<i32> {
        Some(u)
    }

    fn apply_update(&mut self, update: i32) {
        *self = update;
    }

    fn create_from_update(update: i32) -> (r: Option<i32>) {
        Some(update)
    }
}

impl Updatable for i64 {
    type Update = i64;

    open spec fn applied(v: i64, u: i64) -> i64 {
        u
    }

    open spec fn created(u: i64) -> Option<i64> {
        Some(u)
    }

    fn apply_update(&mut self, update: i64) {
        *self = update;
    }

    fn create_from_update(update: i64) -> (r: Option<i64>) {
        Some(update)
    }
}

impl Updatable for () {
    type Update = ();

    open spec fn applied(v: (), u: ()) -> () {
        u
    }

    open spec fn created(u: ()) -> Option<()> {
        Some(u)
    }

    fn apply_update(&mut self, update: ()) {
        *self = update;
    }

    fn create_from_update(update: ()) -> (r: Option<()>) {
        Some(update)
    }
}

impl Updatable for Timespec {
    type Update = Timespec;

    open spec fn applied(v: Timespec, u: Timespec) -> Timespec {
        u
    }

    open spec fn created(u: Timespec) -> Option<Timespec> {
        Some(u)
    }

    fn apply_update(&mut self, update: Timespec) {
        *self = update;
    }

    fn create_from_update(update: Timespec) -> (r: Option<Timespec>) {
        Some(update)
    }
}

impl Updatable for RoomName {
    type Update = RoomName;

    open spec fn applied(v: RoomName, u: RoomName) -> RoomName {
        u
    }

    open spec fn created(u: RoomName) -> Option<RoomName> {
        Some(u)
    }

    fn apply_update(&mut self, update: RoomName) {
        *self = update;
    }

    fn create_from_update(update: RoomName) -> (r: Option<RoomName>) {
        Some(update)
    }
}

impl Updatable for ResourceType {
    type Update = ResourceType;

    open spec fn applied(v: ResourceType, u: ResourceType) -> ResourceType {
        u
    }

    open spec fn created(u: ResourceType) -> Option<ResourceType> {
        Some(u)
    }

    fn apply_update(&mut self, update: ResourceType) {
        *self = update;
    }

    fn create_from_update(update: ResourceType) -> (r: Option<ResourceType>) {
        Some(update)
    }
}

impl Updatable for String {
    type Update = String;

    open spec fn applied(v: Seq<char>, u: Seq<char>) -> Seq<char> {
        u
    }

    open spec fn created(u: Seq<char>) -> Option<Seq<char>> {
        Some(u)
    }

    fn apply_update(&mut self, update: String) {
        *self = update;
    }

    fn create_from_update(update: String) -> (r: Option<String>) {
        Some(update)
    }
}

impl<T: Updatable> Updatable for Option<T> {
    type Update = Option<T::Update>;

    open spec fn applied(v: Option<T::V>, u: Option<<T::Update as DeepView>::V>) -> Option<T::V> {
        match u {
            Some(x) => match v {
                Some(e) => Some(T::applied(e, x)),
                None => T::created(x),
            },
            None => None,
        }
    }

    open spec fn created(u: Option<<T::Update as DeepView>::V>) -> Option<Option<T::V>> {
        match u {
            Some(x) => Some(T::created(x)),
            None => Some(None),
        }
    }

    fn apply_update(&mut self, update: Option<T::Update>) {
        match update {
            Some(value_update) => {
                match self {
                    Some(existing) => existing.apply_update(value_update),
                    None => *self = T::create_from_update(value_update),
                }
            },
            None => *self = None,
        }
    }

    fn create_from_update(update: Option<T::Update>) -> (r: Option<Option<T>>) {
        match update {
            Some(x) => Some(T::create_from_update(x)),
            None => Some(None),
        }
    }
}


/// Update structure for a `Vec`: either the whole new list, or changes at some indices.
#[derive(Debug, Clone)]
pub enum VecUpdate<T> {
    /// The whole new list.
    Array(Vec<T>),
    /// Changes at some indices.
    PartialObj(VecPartialUpdate<T>),
}

/// Changes to a list at some indices, applied in order. An index equal to the list's length
/// adds an element at the end; larger indices are ignored.
#[derive(Debug, Clone)]
pub struct VecPartialUpdate<T>(pub Vec<(u32, T)>);

/// A key of the server's map of changes to a list that is not a number in a string.
#[derive(Copy, Clone, Debug, PartialEq, Eq, Structural)]
pub struct VecIndexKeyError;

/// Reads the entries of the server's map of changes to a list, one at a time.
pub struct VecPartialUpdateVisitor<T> {
    /// The changes read so far, in order.
    pub entries: Vec<(u32, T)>,
}

impl<T> VecPartialUpdateVisitor<T> {
    /// A visitor that has read no entry yet.
    pub fn new() -> (r: Self)
        ensures
            r.entries@ == Seq::<(u32, T)>::empty(),
    {
        VecPartialUpdateVisitor { entries: Vec::new() }
    }

    /// Reads one entry: a key that holds an index as decimal text, as `str::parse` reads a
    /// `u32`, and the change at that index. A key that is not such a number is refused.
    pub fn visit_entry(&mut self, key: &str, value: T) -> (r: Result<(), VecIndexKeyError>)
        ensures
            match parse_unsigned(key@, u32::MAX as nat) {
                Some(i) => r is Ok && final(self).entries@ == old(self).entries@.push(
                    (i as u32, value),
                ),
                None => r is Err && final(self).entries@ == old(self).entries@,
            },
    {
        let cs = chars_of(key);
        assert(cs@.subrange(0, cs@.len() as int) =~= cs@);
        match parse_unsigned_chars(&cs, 0, cs.len(), 0xffff_ffff) {
            Some(i) => {
                self.entries.push((i as u32, value));
                Ok(())
            },
            None => Err(VecIndexKeyError),
        }
    }

    /// The changes read, in order.
    pub fn finish(self) -> (r: VecPartialUpdate<T>)
        ensures
            r.0@ == self.entries@,
    {
        VecPartialUpdate(self.entries)
    }
}

/// The abstract value of a `VecUpdate`.
pub enum VecUpdateView<V> {
    Array(Seq<V>),
    PartialObj(Seq<(u32, V)>),
}

impl<T: DeepView> DeepView for VecUpdate<T> {
    type V = VecUpdateView<T::V>;

    open spec fn deep_view(&self) -> VecUpdateView<T::V> {
        match self {
            VecUpdate::Array(v) => VecUpdateView::Array(v.deep_view()),
            VecUpdate::PartialObj(p) => VecUpdateView::PartialObj(p.deep_view()),
        }
    }
}

impl<T: DeepView> DeepView for VecPartialUpdate<T> {
    type V = Seq<(u32, T::V)>;

    open spec fn deep_view(&self) -> Seq<(u32, T::V)> {
        self.0.deep_view()
    }
}

/// The elements that the updates `us` describe, if each describes a whole element.
pub open spec fn created_all<T: Updatable>(us: Seq<<T::Update as DeepView>::V>) -> Option<Seq<T::V>>
    decreases us.len(),
{
    if us.len() == 0 {
        Some(Seq::empty())
    } else {
        match created_all::<T>(us.drop_last()) {
            None => None,
            Some(ts) => match T::created(us.last()) {
                None => None,
                Some(t) => Some(ts.push(t)),
            },
        }
    }
}

/// One change at an index: past the end it is ignored, at the end it adds the element it
/// describes (if it describes a whole one), otherwise it updates the element there.
pub open spec fn partial_step<T: Updatable>(
    cur: Seq<T::V>,
    p: (u32, <T::Update as DeepView>::V),
) -> Seq<T::V> {
    let idx = p.0 as int;
    if idx > cur.len() {
        cur
    } else if idx == cur.len() {
        match T::created(p.1) {
            Some(t) => cur.push(t),
            None => cur,
        }
    } else {
        cur.update(idx, T::applied(cur[idx], p.1))
    }
}

/// The list `v` after the changes `ps`, applied in order.
pub open spec fn partial_applied<T: Updatable>(
    v: Seq<T::V>,
    ps: Seq<(u32, <T::Update as DeepView>::V)>,
) -> Seq<T::V>
    decreases ps.len(),
{
    if ps.len() == 0 {
        v
    } else {
        partial_step::<T>(partial_applied::<T>(v, ps.drop_last()), ps.last())
    }
}

/// Creates each element that the updates `us` describe, or None if one of them does not
/// describe a whole element.
fn create_all<T: Updatable>(us: Vec<T::Update>) -> (r: Option<Vec<T>>)
    ensures
        r.deep_view() == created_all::<T>(us.deep_view()),
{
    let ghost all = us.deep_view();
    let mut rest = us;
    let mut made: Vec<T> = Vec::new();
    let ghost mut i: int = 0;
    assert(all.take(0) =~= Seq::<<T::Update as DeepView>::V>::empty());
    assert(made.deep_view() =~= Seq::<T::V>::empty());
    while rest.len() > 0
        invariant
            0 <= i <= all.len(),
            all == us.deep_view(),
            rest.deep_view() == all.skip(i),
            created_all::<T>(all.take(i)) == Some(made.deep_view()),
        decreases rest.len(),
    {
        let ghost before_rest = rest.deep_view();
        let ghost before_seq = rest@;
        let u = rest.remove(0);
        proof {
            assert(before_rest.len() == before_seq.len());
            assert(u.deep_view() == before_rest[0]);
            assert(all.skip(i as int)[0] == all[i as int]);
            assert(all[i as int] == before_rest[0]);
            assert forall|j: int| 0 <= j < rest@.len() implies rest.deep_view()[j] == all.skip(
                i + 1,
            )[j] by {
                assert(rest@[j] == before_seq[j + 1]);
                assert(before_rest[j + 1] == all.skip(i as int)[j + 1]);
            }
            assert(rest.deep_view() =~= all.skip(i + 1));
            assert(all.take(i + 1).drop_last() =~= all.take(i as int));
            assert(all.take(i + 1).last() == all[i as int]);
        }
        match T::create_from_update(u) {
            Some(t) => {
                let ghost before = made.deep_view();
                made.push(t);
                assert(made.deep_view() =~= before.push(t.deep_view()));
                proof {
                    i = i + 1;
                }
            },
            None => {
                proof {
                    assert(T::created(all[i]) is None);
                    assert(created_all::<T>(all.take(i + 1)) is None);
                    lemma_created_all_none::<T>(all, i + 1);
                }
                return None;
            },
        }
    }
    assert(all.take(i as int) =~= all);
    Some(made)
}

/// Once one of the first `k` updates fails to describe a whole element, the whole list fails.
proof fn lemma_created_all_none<T: Updatable>(all: Seq<<T::Update as DeepView>::V>, k: int)
    requires
        0 <= k <= all.len(),
        created_all::<T>(all.take(k)) is None,
    ensures
        created_all::<T>(all) is None,
    decreases all.len() - k,
{
    if k < all.len() {
        assert(all.take(k + 1).drop_last() =~= all.take(k));
        lemma_created_all_none::<T>(all, k + 1);
    } else {
        assert(all.take(k) =~= all);
    }
}

/// Creating elements from a list of updates, element by element: the list comes out exactly
/// when every update describes a whole element, and then it holds, in order, one element per
/// update, each the element its update describes.
pub proof fn lemma_created_all_elements<T: Updatable>(us: Seq<<T::Update as DeepView>::V>)
    ensures
        created_all::<T>(us) is Some <==> (forall|i: int|
            0 <= i < us.len() ==> #[trigger] T::created(us[i]) is Some),
        created_all::<T>(us) is Some ==> created_all::<T>(us)->0.len() == us.len() && (forall|
            i: int,
        |
            0 <= i < us.len() ==> Some(created_all::<T>(us)->0[i]) == #[trigger] T::created(us[i])),
    decreases us.len(),
{
    if us.len() > 0 {
        let init = us.drop_last();
        lemma_created_all_elements::<T>(init);
        assert forall|i: int| 0 <= i < init.len() implies init[i] == us[i] by {}
        if created_all::<T>(us) is None {
            if created_all::<T>(init) is None {
                let j = choose|j: int| 0 <= j < init.len() && !(T::created(init[j]) is Some);
                assert(T::created(us[j]) is None);
            } else {
                assert(T::created(us[us.len() - 1]) is None);
            }
        }
    }
}

/// A list update with a whole list replaces the list with the elements its updates describe,
/// one per update and in order, when each describes a whole element; when one does not, the list
/// is left as it was.
pub proof fn lemma_vec_whole_list_update<T: Updatable>(
    v: Seq<T::V>,
    us: Seq<<T::Update as DeepView>::V>,
)
    ensures
        (forall|i: int| 0 <= i < us.len() ==> #[trigger] T::created(us[i]) is Some) ==> {
            let n = <Vec<T> as Updatable>::applied(v, VecUpdateView::Array(us));
            n.len() == us.len() && forall|i: int|
                0 <= i < us.len() ==> Some(n[i]) == #[trigger] T::created(us[i])
        },
        !(forall|i: int| 0 <= i < us.len() ==> #[trigger] T::created(us[i]) is Some)
            ==> <Vec<T> as Updatable>::applied(v, VecUpdateView::Array(us)) == v,
{
    lemma_created_all_elements::<T>(us);
}

/// A list update that changes one index inside the list brings the element there up to date
/// as the element's own update does, and leaves the list's length and every other element as
/// they were. A change just past the last element adds the element that the change describes,
/// where it describes a whole one; a change further out leaves the list as it was.
pub proof fn lemma_vec_partial_update_one<T: Updatable>(
    v: Seq<T::V>,
    i: u32,
    u: <T::Update as DeepView>::V,
)
    ensures
        i < v.len() ==> {
            let n = <Vec<T> as Updatable>::applied(v, VecUpdateView::PartialObj(seq![(i, u)]));
            &&& n.len() == v.len()
            &&& n[i as int] == T::applied(v[i as int], u)
            &&& forall|j: int| 0 <= j < v.len() && j != i ==> n[j] == v[j]
        },
        i == v.len() ==> <Vec<T> as Updatable>::applied(v, VecUpdateView::PartialObj(seq![(i, u)]))
            == match T::created(u) {
            Some(t) => v.push(t),
            None => v,
        },
        i > v.len() ==> <Vec<T> as Updatable>::applied(v, VecUpdateView::PartialObj(seq![(i, u)]))
            == v,
{
    let ps = seq![(i, u)];
    assert(ps.drop_last() =~= Seq::<(u32, <T::Update as DeepView>::V)>::empty());
    assert(ps.last() == (i, u));
    assert(partial_applied::<T>(v, ps.drop_last()) == v);
    assert(partial_applied::<T>(v, ps) == partial_step::<T>(v, (i, u)));
}

/// Changes to a list applied in two batches, one after the other, give what the two batches
/// applied as one list of changes give.
pub proof fn lemma_vec_partial_update_concat<T: Updatable>(
    v: Seq<T::V>,
    ps: Seq<(u32, <T::Update as DeepView>::V)>,
    qs: Seq<(u32, <T::Update as DeepView>::V)>,
)
    ensures
        <Vec<T> as Updatable>::applied(
            <Vec<T> as Updatable>::applied(v, VecUpdateView::PartialObj(ps)),
            VecUpdateView::PartialObj(qs),
        ) == <Vec<T> as Updatable>::applied(v, VecUpdateView::PartialObj(ps + qs)),
    decreases qs.len(),
{
    if qs.len() == 0 {
        assert(ps + qs =~= ps);
    } else {
        lemma_vec_partial_update_concat::<T>(v, ps, qs.drop_last());
        assert((ps + qs).drop_last() =~= ps + qs.drop_last());
        assert((ps + qs).last() == qs.last());
    }
}

impl<T: Updatable> Updatable for Vec<T> {
    type Update = VecUpdate<T::Update>;

    open spec fn applied(v: Seq<T::V>, u: VecUpdateView<<T::Update as DeepView>::V>) -> Seq<T::V> {
        match u {
            VecUpdateView::Array(us) => match created_all::<T>(us) {
                Some(ts) => ts,
                None => v,
            },
            VecUpdateView::PartialObj(ps) => partial_applied::<T>(v, ps),
        }
    }

    open spec fn created(u: VecUpdateView<<T::Update as DeepView>::V>) -> Option<Seq<T::V>> {
        match u {
            VecUpdateView::Array(us) => created_all::<T>(us),
            VecUpdateView::PartialObj(_) => None,
        }
    }

    fn apply_update(&mut self, update: VecUpdate<T::Update>) {
        match update {
            VecUpdate::Array(vec) => {
                if let Some(v) = create_all::<T>(vec) {
                    *self = v;
                }
            },
            VecUpdate::PartialObj(map) => {
                let VecPartialUpdate(entries) = map;
                let ghost ps = entries.deep_view();
                let ghost start = self.deep_view();
                let mut rest = entries;
                let ghost mut i: int = 0;
                assert(ps.take(0) =~= Seq::<(u32, <T::Update as DeepView>::V)>::empty());
                while rest.len() > 0
                    invariant
                        0 <= i <= ps.len(),
                        rest.deep_view() == ps.skip(i as int),
                        self.deep_view() == partial_applied::<T>(start, ps.take(i as int)),
                    decreases rest.len(),
                {
                    let ghost before_rest = rest.deep_view();
                    let ghost before_seq = rest@;
                    let ghost cur = self.deep_view();
                    let (index, value) = rest.remove(0);
                    proof {
                        assert(before_rest.len() == before_seq.len());
                        assert((index, value.deep_view()) == before_rest[0]);
                        assert(ps.skip(i as int)[0] == ps[i as int]);
                        assert(ps[i as int] == before_rest[0]);
                        assert forall|j: int| 0 <= j < rest@.len() implies rest.deep_view()[j]
                            == ps.skip(i + 1)[j] by {
                            assert(rest@[j] == before_seq[j + 1]);
                            assert(before_rest[j + 1] == ps.skip(i as int)[j + 1]);
                        }
                        assert(rest.deep_view() =~= ps.skip(i + 1));
                        assert(ps.take(i + 1).drop_last() =~= ps.take(i as int));
                        assert(ps.take(i + 1).last() == ps[i as int]);
                    }
                    let idx = index as usize;
                    let len = self.len();
                    if idx > len {
                    } else if idx == len {
                        if let Some(v) = T::create_from_update(value) {
                            self.push(v);
                            assert(self.deep_view() =~= cur.push(v.deep_view()));
                        }
                    } else {
                        let mut e = self.remove(idx);
                        proof {
                            assert(e.deep_view() == cur[idx as int]);
                        }
                        e.apply_update(value);
                        self.insert(idx, e);
                        assert(self.deep_view() =~= cur.update(
                            idx as int,
                            T::applied(cur[idx as int], value.deep_view()),
                        ));
                    }
                    proof {
                        i = i + 1;
                    }
                }
                assert(ps.take(i as int) =~= ps);
            },
        }
    }

    fn create_from_update(update: VecUpdate<T::Update>) -> (r: Option<Vec<T>>) {
        match update {
            VecUpdate::Array(vec) => create_all::<T>(vec),
            VecUpdate::PartialObj(_) => None,
        }
    }
}

} // verus!
