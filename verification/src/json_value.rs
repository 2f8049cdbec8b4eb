//! JSON values that room updates carry, merged as the server's partial updates merge them.
use vstd::prelude::*;

use crate::updatable::Updatable;

verus! {

/// A JSON value as a room update carries it: an object, by the names of its members and the
/// JSON text of each member's value, in order; or any other value, by its JSON text.
#[derive(Clone, Debug, PartialEq, Eq)]
pub enum JsonValue {
    /// An object's members: each name with the JSON text of its value.
    Object(Vec<(String, String)>),
    /// A value that is not an object, as JSON text.
    Other(String),
}

/// The abstract value of a `JsonValue`: its texts as character sequences.
pub enum JsonValueView {
    Object(Seq<(Seq<char>, Seq<char>)>),
    Other(Seq<char>),
}

/// An object's members as character sequences.
pub open spec fn members_view(m: Seq<(String, String)>) -> Seq<(Seq<char>, Seq<char>)> {
    m.map_values(|p: (String, String)| (p.0@, p.1@))
}

impl DeepView for JsonValue {
    type V = JsonValueView;

    open spec fn deep_view(&self) -> JsonValueView {
        match self {
            JsonValue::Object(m) => JsonValueView::Object(members_view(m@)),
            JsonValue::Other(t) => JsonValueView::Other(t@),
        }
    }
}

/// The members `m` with the member named `k` set to `v`: in place of the first member of that
/// name where `m` has one, appended at the end where it has none.
pub open spec fn with_member(
    m: Seq<(Seq<char>, Seq<char>)>,
    k: Seq<char>,
    v: Seq<char>,
) -> Seq<(Seq<char>, Seq<char>)>
    decreases m.len(),
{
    if m.len() == 0 {
        seq![(k, v)]
    } else if m[0].0 == k {
        seq![(k, v)] + m.skip(1)
    } else {
        seq![m[0]] + with_member(m.skip(1), k, v)
    }
}

/// The members `m` with each member of `u` set in turn, from the first to the last.
pub open spec fn merged_members(
    m: Seq<(Seq<char>, Seq<char>)>,
    u: Seq<(Seq<char>, Seq<char>)>,
) -> Seq<(Seq<char>, Seq<char>)>
    decreases u.len(),
{
    if u.len() == 0 {
        m
    } else {
        merged_members(with_member(m, u[0].0, u[0].1), u.skip(1))
    }
}

/// The value of the first member of `m` named `k`, if any.
pub open spec fn member(m: Seq<(Seq<char>, Seq<char>)>, k: Seq<char>) -> Option<Seq<char>>
    decreases m.len(),
{
    if m.len() == 0 {
        None
    } else if m[0].0 == k {
        Some(m[0].1)
    } else {
        member(m.skip(1), k)
    }
}

/// The value of the last member of `u` named `k`, if any.
pub open spec fn last_member(u: Seq<(Seq<char>, Seq<char>)>, k: Seq<char>) -> Option<Seq<char>>
    decreases u.len(),
{
    if u.len() == 0 {
        None
    } else {
        match last_member(u.skip(1), k) {
            Some(v) => Some(v),
            None => if u[0].0 == k {
                Some(u[0].1)
            } else {
                None
            },
        }
    }
}

/// What a value becomes under an update: an object update merges its members into an object,
/// and any other update, or an object update of a value that is not an object, replaces it.
pub open spec fn json_applied(v: JsonValueView, u: JsonValueView) -> JsonValueView {
    match u {
        JsonValueView::Object(um) => match v {
            JsonValueView::Object(vm) => JsonValueView::Object(merged_members(vm, um)),
            JsonValueView::Other(_) => u,
        },
        JsonValueView::Other(_) => u,
    }
}

proof fn lemma_with_member_at(
    m: Seq<(Seq<char>, Seq<char>)>,
    k: Seq<char>,
    v: Seq<char>,
    i: int,
)
    requires
        0 <= i < m.len(),
        m[i].0 == k,
        forall|j: int| 0 <= j < i ==> m[j].0 != k,
    ensures
        with_member(m, k, v) == m.update(i, (k, v)),
    decreases m.len(),
{
    if i == 0 {
        assert(with_member(m, k, v) =~= m.update(i, (k, v)));
    } else {
        let t = m.skip(1);
        assert forall|j: int| 0 <= j < i - 1 implies t[j].0 != k by {
            assert(t[j] == m[j + 1]);
        }
        lemma_with_member_at(t, k, v, i - 1);
        assert(with_member(m, k, v) =~= m.update(i, (k, v)));
    }
}

proof fn lemma_with_member_absent(m: Seq<(Seq<char>, Seq<char>)>, k: Seq<char>, v: Seq<char>)
    requires
        forall|j: int| 0 <= j < m.len() ==> m[j].0 != k,
    ensures
        with_member(m, k, v) == m.push((k, v)),
    decreases m.len(),
{
    if m.len() == 0 {
        assert(with_member(m, k, v) =~= m.push((k, v)));
    } else {
        let t = m.skip(1);
        assert forall|j: int| 0 <= j < t.len() implies t[j].0 != k by {
            assert(t[j] == m[j + 1]);
        }
        lemma_with_member_absent(t, k, v);
        assert(with_member(m, k, v) =~= m.push((k, v)));
    }
}

/// Setting a member gives that member the new value and leaves every other member's value as
/// it was.
pub proof fn lemma_with_member_member(
    m: Seq<(Seq<char>, Seq<char>)>,
    k: Seq<char>,
    v: Seq<char>,
    k2: Seq<char>,
)
    ensures
        member(with_member(m, k, v), k2) == if k2 == k {
            Some(v)
        } else {
            member(m, k2)
        },
    decreases m.len(),
{
    let w = with_member(m, k, v);
    if m.len() == 0 {
        assert(w[0] == (k, v));
        assert(w.skip(1) =~= Seq::<(Seq<char>, Seq<char>)>::empty());
        assert(member(w.skip(1), k2) is None);
    } else if m[0].0 == k {
        assert(w[0] == (k, v));
        assert(w.skip(1) =~= m.skip(1));
    } else {
        assert(w[0] == m[0]);
        lemma_with_member_member(m.skip(1), k, v, k2);
        assert(w.skip(1) =~= with_member(m.skip(1), k, v));
    }
}

/// Merging an object update into an object gives each member that the update names the value
/// of the update's last member of that name, and keeps the value of every member that the
/// update does not name.
pub proof fn lemma_merged_member(
    m: Seq<(Seq<char>, Seq<char>)>,
    u: Seq<(Seq<char>, Seq<char>)>,
    k: Seq<char>,
)
    ensures
        member(merged_members(m, u), k) == match last_member(u, k) {
            Some(v) => Some(v),
            None => member(m, k),
        },
    decreases u.len(),
{
    if u.len() > 0 {
        lemma_merged_member(with_member(m, u[0].0, u[0].1), u.skip(1), k);
        lemma_with_member_member(m, u[0].0, u[0].1, k);
    }
}

/// Sets the member named `k` of the object members `m` to `v`.
fn set_member(m: &mut Vec<(String, String)>, k: String, v: String)
    ensures
        members_view(final(m)@) == with_member(members_view(old(m)@), k@, v@),
{
    let ghost mv = members_view(m@);
    let mut i: usize = 0;
    while i < m.len()
        invariant
            i <= m.len(),
            m@ == old(m)@,
            mv == members_view(m@),
            forall|j: int| 0 <= j < i ==> mv[j].0 != k@,
        decreases m.len() - i,
    {
        if m[i].0 == k {
            proof {
                lemma_with_member_at(mv, k@, v@, i as int);
            }
            m.set(i, (k, v));
            assert(members_view(m@) =~= mv.update(i as int, (k@, v@)));
            return;
        }
        i += 1;
    }
    proof {
        lemma_with_member_absent(mv, k@, v@);
    }
    m.push((k, v));
    assert(members_view(m@) =~= mv.push((k@, v@)));
}

/// Sets each member of `u` in the object members `m`, from the first to the last.
fn merge_members(m: &mut Vec<(String, String)>, u: &Vec<(String, String)>)
    ensures
        members_view(final(m)@) == merged_members(members_view(old(m)@), members_view(u@)),
{
    let ghost uv = members_view(u@);
    let mut i: usize = 0;
    assert(uv.skip(0) =~= uv);
    while i < u.len()
        invariant
            i <= u.len(),
            uv == members_view(u@),
            merged_members(members_view(m@), uv.skip(i as int)) == merged_members(
                members_view(old(m)@),
                uv,
            ),
        decreases u.len() - i,
    {
        let k = u[i].0.clone();
        let v = u[i].1.clone();
        proof {
            let s = uv.skip(i as int);
            assert(s.skip(1) =~= uv.skip(i + 1));
            assert(s[0] == (k@, v@));
        }
        set_member(m, k, v);
        i += 1;
    }
    assert(uv.skip(i as int) =~= Seq::<(Seq<char>, Seq<char>)>::empty());
}

impl Updatable for JsonValue {
    type Update = JsonValue;

    open spec fn applied(v: JsonValueView, u: JsonValueView) -> JsonValueView {
        json_applied(v, u)
    }

    open spec fn created(u: JsonValueView) -> Option<JsonValueView> {
        Some(u)
    }

    fn apply_update(&mut self, update: JsonValue) {
        match update {
            JsonValue::Object(um) => {
                let mut here = JsonValue::Other(String::new());
                std::mem::swap(&mut here, self);
                match here {
                    JsonValue::Object(mut m) => {
                        merge_members(&mut m, &um);
                        *self = JsonValue::Object(m);
                    },
                    JsonValue::Other(_) => {
                        *self = JsonValue::Object(um);
                    },
                }
            },
            other => {
                *self = other;
            },
        }
    }

    fn create_from_update(update: JsonValue) -> (r: Option<JsonValue>) {
        Some(update)
    }
}

} // verus!
