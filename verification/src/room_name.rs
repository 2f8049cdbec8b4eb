//! Names of rooms in the game world.
use vstd::prelude::*;

use crate::decimal::{
    all_digits, decimal_text, digits_value, is_digit, lemma_decimal_text, parse_unsigned,
    parse_unsigned_chars, push_decimal,
};
use crate::text::chars_of;

verus! {

/// The name of a room: a horizontal coordinate `E<x>` or `W<x>` followed by a vertical
/// coordinate `N<y>` or `S<y>`, as in `E4S61`.
#[derive(Copy, Clone, Debug, PartialEq, Eq, Hash, Structural)]
pub struct RoomName {
    /// Whether the horizontal coordinate is east (`E`) rather than west (`W`).
    pub east: bool,
    /// The horizontal distance from the center line.
    pub x: u32,
    /// Whether the vertical coordinate is south (`S`) rather than north (`N`).
    pub south: bool,
    /// The vertical distance from the center line.
    pub y: u32,
}

/// Error for a string that is not a room name.
#[derive(Copy, Clone, Debug, PartialEq, Eq, Hash, Structural)]
pub struct RoomNameParseError;

/// The index just past the run of digits in `s` that starts at `i`.
pub open spec fn digits_end(s: Seq<char>, i: int) -> int
    decreases s.len() - i,
{
    if 0 <= i < s.len() && is_digit(s[i]) {
        digits_end(s, i + 1)
    } else {
        i
    }
}

/// The room name that `s` spells, if it spells one: `E` or `W`, one or more digits, `N` or
/// `S`, one or more digits, with both numbers fitting in a `u32`.
pub open spec fn parse_room_name(s: Seq<char>) -> Option<RoomName> {
    let k = digits_end(s, 1);
    if s.len() >= 1 && (s[0] == 'E' || s[0] == 'W') && 1 < k < s.len() && (s[k] == 'N' || s[k]
        == 'S') && k + 1 < s.len() && all_digits(s.subrange(k + 1, s.len() as int))
        && digits_value(s.subrange(1, k)) <= u32::MAX && digits_value(
        s.subrange(k + 1, s.len() as int),
    ) <= u32::MAX {
        Some(
            RoomName {
                east: s[0] == 'E',
                x: digits_value(s.subrange(1, k)) as u32,
                south: s[k] == 'S',
                y: digits_value(s.subrange(k + 1, s.len() as int)) as u32,
            },
        )
    } else {
        None
    }
}

/// The canonical spelling of a room name (no leading zeros).
pub open spec fn room_name_text(r: RoomName) -> Seq<char> {
    seq![if r.east { 'E' } else { 'W' }] + decimal_text(r.x as nat) + seq![
        if r.south { 'S' } else { 'N' },
    ] + decimal_text(r.y as nat)
}

proof fn lemma_digits_end(s: Seq<char>, i: int)
    requires
        0 <= i <= s.len(),
    ensures
        i <= digits_end(s, i) <= s.len(),
        forall|j: int| i <= j < digits_end(s, i) ==> is_digit(#[trigger] s[j]),
        digits_end(s, i) < s.len() ==> !is_digit(s[digits_end(s, i)]),
    decreases s.len() - i,
{
    if i < s.len() && is_digit(s[i]) {
        lemma_digits_end(s, i + 1);
    }
}

proof fn lemma_all_digits_subrange(s: Seq<char>, i: int)
    requires
        0 <= i <= s.len(),
    ensures
        all_digits(s.subrange(i, digits_end(s, i))),
{
    lemma_digits_end(s, i);
    let d = s.subrange(i, digits_end(s, i));
    assert forall|j: int| 0 <= j < d.len() implies is_digit(#[trigger] d[j]) by {
        assert(d[j] == s[i + j]);
    }
}

proof fn lemma_parse_digits(d: Seq<char>, max: nat)
    requires
        d.len() > 0,
        all_digits(d),
    ensures
        parse_unsigned(d, max) == (if digits_value(d) <= max {
            Some(digits_value(d))
        } else {
            None::<nat>
        }),
{
    assert(is_digit(d[0]));
}

/// Reading back the canonical spelling of a room name gives the same room name.
pub proof fn lemma_room_name_roundtrip(r: RoomName)
    ensures
        parse_room_name(room_name_text(r)) == Some(r),
{
    let xs = decimal_text(r.x as nat);
    let ys = decimal_text(r.y as nat);
    lemma_decimal_text(r.x as nat);
    lemma_decimal_text(r.y as nat);
    let s = room_name_text(r);
    let k: int = 1 + xs.len() as int;
    assert forall|j: int| 1 <= j < k implies s[j] == xs[j - 1] && is_digit(#[trigger] s[j]) by {
        assert(s[j] == xs[j - 1]);
        assert(is_digit(xs[j - 1]));
    }
    assert(s[k] == (if r.south { 'S' } else { 'N' }));
    assert forall|i: int| 1 <= i <= k implies digits_end(s, i) == k by {
        lemma_digits_end_from(s, i, k);
    }
    assert(s.subrange(1, k) =~= xs);
    assert(s.subrange(k + 1, s.len() as int) =~= ys);
}

proof fn lemma_digits_end_from(s: Seq<char>, i: int, k: int)
    requires
        1 <= i <= k < s.len(),
        forall|j: int| 1 <= j < k ==> is_digit(#[trigger] s[j]),
        !is_digit(s[k]),
    ensures
        digits_end(s, i) == k,
    decreases k - i,
{
    if i < k {
        assert(is_digit(s[i]));
        lemma_digits_end_from(s, i + 1, k);
    }
}

impl RoomName {
    /// Parses a room name such as `E4S61` or `W12N3`.
    pub fn new(text: &str) -> (r: Result<RoomName, RoomNameParseError>)
        ensures
            match parse_room_name(text@) {
                Some(n) => r == Ok::<RoomName, RoomNameParseError>(n),
                None => r is Err,
            },
    {
        let cs = chars_of(text);
        assert(cs@.subrange(0, cs@.len() as int) =~= text@);
        Self::from_chars(&cs, 0, cs.len())
    }

    /// Parses the room name spelled by `cs[from..to]`.
    pub fn from_chars(cs: &[char], from: usize, to: usize) -> (r: Result<RoomName, RoomNameParseError>)
        requires
            from <= to <= cs@.len(),
        ensures
            match parse_room_name(cs@.subrange(from as int, to as int)) {
                Some(n) => r == Ok::<RoomName, RoomNameParseError>(n),
                None => r is Err,
            },
    {
        let ghost s = cs@.subrange(from as int, to as int);
        if to - from < 1 {
            return Err(RoomNameParseError);
        }
        let first = cs[from];
        if first != 'E' && first != 'W' {
            return Err(RoomNameParseError);
        }
        let mut k = from + 1;
        proof {
            lemma_digits_end(s, 1);
        }
        while k < to && '0' <= cs[k] && cs[k] <= '9'
            invariant
                from + 1 <= k <= to <= cs@.len(),
                s == cs@.subrange(from as int, to as int),
                digits_end(s, 1) == digits_end(s, k - from),
            decreases to - k,
        {
            assert(s[k - from] == cs[k as int]);
            k += 1;
        }
        proof {
            if k < to {
                assert(s[k - from] == cs[k as int]);
            }
            assert(digits_end(s, k - from) == k - from);
        }
        if k == from + 1 || k >= to || to - k < 2 {
            return Err(RoomNameParseError);
        }
        let mid = cs[k];
        if mid != 'N' && mid != 'S' {
            proof {
                assert(s[k - from] == mid);
            }
            return Err(RoomNameParseError);
        }
        proof {
            assert(s[k - from] == mid);
            lemma_all_digits_subrange(s, 1);
            assert(s.subrange(1, k - from) =~= cs@.subrange(from + 1, k as int));
            assert(s.subrange(k - from + 1, s.len() as int) =~= cs@.subrange(k + 1, to as int));
            lemma_parse_digits(s.subrange(1, k - from), u32::MAX as nat);
        }
        let x = match parse_unsigned_chars(cs, from + 1, k, u32::MAX as u64) {
            Some(v) => v,
            None => {
                return Err(RoomNameParseError);
            },
        };
        let after = cs[k + 1];
        if !('0' <= after && after <= '9') {
            proof {
                assert(s.subrange(k - from + 1, s.len() as int)[0] == after);
            }
            return Err(RoomNameParseError);
        }
        let y = match parse_unsigned_chars(cs, k + 1, to, u32::MAX as u64) {
            Some(v) => v,
            None => {
                proof {
                    let d = s.subrange(k - from + 1, s.len() as int);
                    if all_digits(d) {
                        lemma_parse_digits(d, u32::MAX as nat);
                    }
                }
                return Err(RoomNameParseError);
            },
        };
        proof {
            let d = s.subrange(k - from + 1, s.len() as int);
            assert(d[0] != '+') by {
                assert(d[0] == cs[k + 1]);
            }
        }
        Ok(RoomName { east: first == 'E', x: x as u32, south: mid == 'S', y: y as u32 })
    }

    /// The canonical spelling of this room name, as in `E4S61`.
    pub fn to_string(&self) -> (r: String)
        ensures
            r@ == room_name_text(*self),
    {
        let mut out = String::new();
        out.push(if self.east { 'E' } else { 'W' });
        push_decimal(&mut out, self.x);
        out.push(if self.south { 'S' } else { 'N' });
        push_decimal(&mut out, self.y);
        assert(out@ =~= room_name_text(*self));
        out
    }
}

} // verus!
