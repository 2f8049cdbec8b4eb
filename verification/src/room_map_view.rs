//! Update parsing for spare "map view" room updates
use vstd::prelude::*;

use crate::decimal::{parse_unsigned, parse_unsigned_chars};
use crate::text::{chars_of, segment_equals};

verus! {

/// "Map view" room status update. This contains all entities in a given room,
/// organized by what type of thing they are, or who owns them.
#[derive(Clone, Hash, Debug)]
pub struct RoomMapViewUpdate {
    /// Constructed walls in the room. Does not include terrain.
    pub walls: Vec<(u32, u32)>,
    /// All roads in the room.
    pub roads: Vec<(u32, u32)>,
    /// All power banks and dropped power in the room.
    pub power_or_power_bank: Vec<(u32, u32)>,
    /// All portal squares in the room.
    pub portals: Vec<(u32, u32)>,
    /// All energy sources in the room.
    pub sources: Vec<(u32, u32)>,
    /// All mineral deposits in the room.
    pub minerals: Vec<(u32, u32)>,
    /// All controllers in the room.
    pub controllers: Vec<(u32, u32)>,
    /// All keeper's lairs in the room.
    pub keeper_lairs: Vec<(u32, u32)>,
    /// All users who own objects in the room along with all owned objects for each user.
    ///
    /// This is a Vec of (user_id, owned_objects_of_that_user). The game does not provide
    /// more information on what type of object (creep or building, or type of building).
    pub users_objects: Vec<(String, Vec<(u32, u32)>)>,
}

/// The abstract value of a `RoomMapViewUpdate`.
pub struct RoomMapViewUpdateView {
    pub walls: Seq<(u32, u32)>,
    pub roads: Seq<(u32, u32)>,
    pub power_or_power_bank: Seq<(u32, u32)>,
    pub portals: Seq<(u32, u32)>,
    pub sources: Seq<(u32, u32)>,
    pub minerals: Seq<(u32, u32)>,
    pub controllers: Seq<(u32, u32)>,
    pub keeper_lairs: Seq<(u32, u32)>,
    pub users_objects: Seq<(Seq<char>, Seq<(u32, u32)>)>,
}

impl DeepView for RoomMapViewUpdate {
    type V = RoomMapViewUpdateView;

    open spec fn deep_view(&self) -> RoomMapViewUpdateView {
        RoomMapViewUpdateView {
            walls: self.walls@,
            roads: self.roads@,
            power_or_power_bank: self.power_or_power_bank@,
            portals: self.portals@,
            sources: self.sources@,
            minerals: self.minerals@,
            controllers: self.controllers@,
            keeper_lairs: self.keeper_lairs@,
            users_objects: self.users_objects.deep_view(),
        }
    }
}

/// The update with nothing in the room.
pub open spec fn empty_map_view() -> RoomMapViewUpdateView {
    RoomMapViewUpdateView {
        walls: Seq::empty(),
        roads: Seq::empty(),
        power_or_power_bank: Seq::empty(),
        portals: Seq::empty(),
        sources: Seq::empty(),
        minerals: Seq::empty(),
        controllers: Seq::empty(),
        keeper_lairs: Seq::empty(),
        users_objects: Seq::empty(),
    }
}

/// The update after one more entry of the server's map: the keys `w`, `r`, `pb`, `p`, `s`,
/// `m`, `c` and `k` set walls, roads, power, portals, sources, minerals, controllers and
/// keeper lairs, and any other key is a user id whose objects are added at the end.
pub open spec fn map_view_step(
    m: RoomMapViewUpdateView,
    key: Seq<char>,
    value: Seq<(u32, u32)>,
) -> RoomMapViewUpdateView {
    if key == "w"@ {
        RoomMapViewUpdateView { walls: value, ..m }
    } else if key == "r"@ {
        RoomMapViewUpdateView { roads: value, ..m }
    } else if key == "pb"@ {
        RoomMapViewUpdateView { power_or_power_bank: value, ..m }
    } else if key == "p"@ {
        RoomMapViewUpdateView { portals: value, ..m }
    } else if key == "s"@ {
        RoomMapViewUpdateView { sources: value, ..m }
    } else if key == "m"@ {
        RoomMapViewUpdateView { minerals: value, ..m }
    } else if key == "c"@ {
        RoomMapViewUpdateView { controllers: value, ..m }
    } else if key == "k"@ {
        RoomMapViewUpdateView { keeper_lairs: value, ..m }
    } else {
        RoomMapViewUpdateView { users_objects: m.users_objects.push((key, value)), ..m }
    }
}

/// Each of the server's keys sets its own kind of object and leaves the rest of the update as
/// it was: `w` the walls, `r` the roads, `pb` the power, `p` the portals, `s` the sources, `m`
/// the minerals, `c` the controllers and `k` the keeper lairs; any other key is a user id whose
/// objects are added after those of the users read before.
pub proof fn lemma_map_view_keys(m: RoomMapViewUpdateView, key: Seq<char>, v: Seq<(u32, u32)>)
    ensures
        map_view_step(m, "w"@, v) == (RoomMapViewUpdateView { walls: v, ..m }),
        map_view_step(m, "r"@, v) == (RoomMapViewUpdateView { roads: v, ..m }),
        map_view_step(m, "pb"@, v) == (RoomMapViewUpdateView { power_or_power_bank: v, ..m }),
        map_view_step(m, "p"@, v) == (RoomMapViewUpdateView { portals: v, ..m }),
        map_view_step(m, "s"@, v) == (RoomMapViewUpdateView { sources: v, ..m }),
        map_view_step(m, "m"@, v) == (RoomMapViewUpdateView { minerals: v, ..m }),
        map_view_step(m, "c"@, v) == (RoomMapViewUpdateView { controllers: v, ..m }),
        map_view_step(m, "k"@, v) == (RoomMapViewUpdateView { keeper_lairs: v, ..m }),
        key != "w"@ && key != "r"@ && key != "pb"@ && key != "p"@ && key != "s"@ && key != "m"@
            && key != "c"@ && key != "k"@ ==> map_view_step(m, key, v) == (RoomMapViewUpdateView {
            users_objects: m.users_objects.push((key, v)),
            ..m
        }),
{
    reveal_strlit("w");
    reveal_strlit("r");
    reveal_strlit("pb");
    reveal_strlit("p");
    reveal_strlit("s");
    reveal_strlit("m");
    reveal_strlit("c");
    reveal_strlit("k");
    assert("r"@ != "w"@) by {
        assert("r"@.len() != "w"@.len() || "r"@[0] != "w"@[0]);
    }
    assert("pb"@ != "w"@) by {
        assert("pb"@.len() != "w"@.len() || "pb"@[0] != "w"@[0]);
    }
    assert("pb"@ != "r"@) by {
        assert("pb"@.len() != "r"@.len() || "pb"@[0] != "r"@[0]);
    }
    assert("p"@ != "w"@) by {
        assert("p"@.len() != "w"@.len() || "p"@[0] != "w"@[0]);
    }
    assert("p"@ != "r"@) by {
        assert("p"@.len() != "r"@.len() || "p"@[0] != "r"@[0]);
    }
    assert("p"@ != "pb"@) by {
        assert("p"@.len() != "pb"@.len() || "p"@[0] != "pb"@[0]);
    }
    assert("s"@ != "w"@) by {
        assert("s"@.len() != "w"@.len() || "s"@[0] != "w"@[0]);
    }
    assert("s"@ != "r"@) by {
        assert("s"@.len() != "r"@.len() || "s"@[0] != "r"@[0]);
    }
    assert("s"@ != "pb"@) by {
        assert("s"@.len() != "pb"@.len() || "s"@[0] != "pb"@[0]);
    }
    assert("s"@ != "p"@) by {
        assert("s"@.len() != "p"@.len() || "s"@[0] != "p"@[0]);
    }
    assert("m"@ != "w"@) by {
        assert("m"@.len() != "w"@.len() || "m"@[0] != "w"@[0]);
    }
    assert("m"@ != "r"@) by {
        assert("m"@.len() != "r"@.len() || "m"@[0] != "r"@[0]);
    }
    assert("m"@ != "pb"@) by {
        assert("m"@.len() != "pb"@.len() || "m"@[0] != "pb"@[0]);
    }
    assert("m"@ != "p"@) by {
        assert("m"@.len() != "p"@.len() || "m"@[0] != "p"@[0]);
    }
    assert("m"@ != "s"@) by {
        assert("m"@.len() != "s"@.len() || "m"@[0] != "s"@[0]);
    }
    assert("c"@ != "w"@) by {
        assert("c"@.len() != "w"@.len() || "c"@[0] != "w"@[0]);
    }
    assert("c"@ != "r"@) by {
        assert("c"@.len() != "r"@.len() || "c"@[0] != "r"@[0]);
    }
    assert("c"@ != "pb"@) by {
        assert("c"@.len() != "pb"@.len() || "c"@[0] != "pb"@[0]);
    }
    assert("c"@ != "p"@) by {
        assert("c"@.len() != "p"@.len() || "c"@[0] != "p"@[0]);
    }
    assert("c"@ != "s"@) by {
        assert("c"@.len() != "s"@.len() || "c"@[0] != "s"@[0]);
    }
    assert("c"@ != "m"@) by {
        assert("c"@.len() != "m"@.len() || "c"@[0] != "m"@[0]);
    }
    assert("k"@ != "w"@) by {
        assert("k"@.len() != "w"@.len() || "k"@[0] != "w"@[0]);
    }
    assert("k"@ != "r"@) by {
        assert("k"@.len() != "r"@.len() || "k"@[0] != "r"@[0]);
    }
    assert("k"@ != "pb"@) by {
        assert("k"@.len() != "pb"@.len() || "k"@[0] != "pb"@[0]);
    }
    assert("k"@ != "p"@) by {
        assert("k"@.len() != "p"@.len() || "k"@[0] != "p"@[0]);
    }
    assert("k"@ != "s"@) by {
        assert("k"@.len() != "s"@.len() || "k"@[0] != "s"@[0]);
    }
    assert("k"@ != "m"@) by {
        assert("k"@.len() != "m"@.len() || "k"@[0] != "m"@[0]);
    }
    assert("k"@ != "c"@) by {
        assert("k"@.len() != "c"@.len() || "k"@[0] != "c"@[0]);
    }
}

/// The update that the entries of the server's map describe, read in order.
pub open spec fn map_view_from_seq(s: Seq<(Seq<char>, Seq<(u32, u32)>)>) -> RoomMapViewUpdateView
    decreases s.len(),
{
    if s.len() == 0 {
        empty_map_view()
    } else {
        map_view_step(map_view_from_seq(s.drop_last()), s.last().0, s.last().1)
    }
}

proof fn lemma_positions_deep_view(v: &Vec<(u32, u32)>)
    ensures
        v.deep_view() == v@,
{
    assert(v.deep_view() =~= v@);
}

impl Default for RoomMapViewUpdate {
    fn default() -> (r: Self)
        ensures
            r.deep_view() == empty_map_view(),
    {
        let r = RoomMapViewUpdate {
            walls: Vec::new(),
            roads: Vec::new(),
            power_or_power_bank: Vec::new(),
            portals: Vec::new(),
            sources: Vec::new(),
            minerals: Vec::new(),
            controllers: Vec::new(),
            keeper_lairs: Vec::new(),
            users_objects: Vec::new(),
        };
        assert(r.deep_view().users_objects =~= Seq::<(Seq<char>, Seq<(u32, u32)>)>::empty());
        r
    }
}

/// Reads the entries of the server's map for a map view update, one at a time.
pub struct RoomMapViewUpdateVisitor {
    /// The update that the entries read so far describe.
    pub update: RoomMapViewUpdate,
}

impl RoomMapViewUpdateVisitor {
    /// A visitor that has read no entry yet.
    pub fn new() -> (r: Self)
        ensures
            r.update.deep_view() == empty_map_view(),
    {
        RoomMapViewUpdateVisitor { update: RoomMapViewUpdate::default() }
    }

    /// Reads one entry: the key, and the positions under it.
    pub fn visit_entry(&mut self, key: String, value: Vec<(u32, u32)>)
        ensures
            final(self).update.deep_view() == map_view_step(
                old(self).update.deep_view(),
                key@,
                value@,
            ),
    {
        let cs = chars_of(key.as_str());
        let n = cs.len();
        assert(cs@.subrange(0, n as int) =~= cs@);
        if segment_equals(&cs, 0, n, "w") {
            self.update.walls = value;
        } else if segment_equals(&cs, 0, n, "r") {
            self.update.roads = value;
        } else if segment_equals(&cs, 0, n, "pb") {
            self.update.power_or_power_bank = value;
        } else if segment_equals(&cs, 0, n, "p") {
            self.update.portals = value;
        } else if segment_equals(&cs, 0, n, "s") {
            self.update.sources = value;
        } else if segment_equals(&cs, 0, n, "m") {
            self.update.minerals = value;
        } else if segment_equals(&cs, 0, n, "c") {
            self.update.controllers = value;
        } else if segment_equals(&cs, 0, n, "k") {
            self.update.keeper_lairs = value;
        } else {
            let ghost before = self.update.users_objects.deep_view();
            let ghost entry = (key@, value@);
            proof {
                lemma_positions_deep_view(&value);
            }
            self.update.users_objects.push((key, value));
            assert(self.update.users_objects.deep_view() =~= before.push(entry));
        }
    }
}

impl RoomMapViewUpdate {
    /// The update that the entries of the server's map describe, read in order.
    pub fn from_entries(entries: Vec<(String, Vec<(u32, u32)>)>) -> (r: Self)
        ensures
            r.deep_view() == map_view_from_seq(entries.deep_view()),
    {
        let ghost all = entries.deep_view();
        let mut visitor = RoomMapViewUpdateVisitor::new();
        let mut rest = entries;
        let ghost mut i: int = 0;
        assert(all.take(0) =~= Seq::<(Seq<char>, Seq<(u32, u32)>)>::empty());
        while rest.len() > 0
            invariant
                0 <= i <= all.len(),
                rest.deep_view() == all.skip(i),
                visitor.update.deep_view() == map_view_from_seq(all.take(i)),
            decreases rest.len(),
        {
            let ghost before_rest = rest.deep_view();
            let ghost before_seq = rest@;
            let (key, value) = rest.remove(0);
            proof {
                lemma_positions_deep_view(&value);
                assert(before_rest.len() == before_seq.len());
                assert((key@, value@) == before_rest[0]);
                assert(all.skip(i)[0] == all[i]);
                assert forall|j: int| 0 <= j < rest@.len() implies rest.deep_view()[j] == all.skip(
                    i + 1,
                )[j] by {
                    assert(rest@[j] == before_seq[j + 1]);
                    assert(before_rest[j + 1] == all.skip(i)[j + 1]);
                }
                assert(rest.deep_view() =~= all.skip(i + 1));
                assert(all.take(i + 1).drop_last() =~= all.take(i));
                assert(all.take(i + 1).last() == all[i]);
            }
            visitor.visit_entry(key, value);
            proof {
                i = i + 1;
            }
        }
        assert(all.take(i) =~= all);
        visitor.update
    }
}

/// A coordinate that the server sent as a string: its decimal value, as `str::parse` reads
/// a `u32`.
pub fn coordinate_from_text(text: &str) -> (r: Option<u32>)
    ensures
        match parse_unsigned(text@, u32::MAX as nat) {
            Some(v) => r == Some(v as u32),
            None => r is None,
        },
{
    let cs = chars_of(text);
    assert(cs@.subrange(0, cs@.len() as int) =~= cs@);
    match parse_unsigned_chars(&cs, 0, cs.len(), 0xffff_ffff) {
        Some(v) => Some(v as u32),
        None => None,
    }
}

} // verus!
