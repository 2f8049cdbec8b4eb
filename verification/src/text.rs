use vstd::prelude::*;

verus! {

/// Appending a character to a `String` extends its character sequence by that character.
pub assume_specification[ String::push ](s: &mut String, ch: char)
    ensures
        final(s)@ == old(s)@.push(ch),
;

/// Appending a string slice to a `String` concatenates the two character sequences.
pub assume_specification[ String::push_str ](s: &mut String, string: &str)
    ensures
        final(s)@ == old(s)@ + string@,
;

/// The characters of a string slice, in order.
pub fn chars_of(s: &str) -> (r: Vec<char>)
    ensures
        r@ == s@,
{
    let mut r: Vec<char> = Vec::new();
    for c in it: s.chars()
        invariant
            r@ == it.seq().take(it.index() as int),
            it.seq() == s@,
    {
        r.push(c);
    }
    r
}

/// A `String` holding the characters `cs[from..to]`.
pub fn string_of(cs: &[char], from: usize, to: usize) -> (r: String)
    requires
        from <= to <= cs@.len(),
    ensures
        r@ == cs@.subrange(from as int, to as int),
{
    let mut r = String::new();
    let mut i = from;
    while i < to
        invariant
            from <= i <= to <= cs@.len(),
            r@ == cs@.subrange(from as int, i as int),
        decreases to - i,
    {
        r.push(cs[i]);
        i += 1;
    }
    r
}


/// `s` begins with `p`.
pub open spec fn starts_with(s: Seq<char>, p: Seq<char>) -> bool {
    p.len() <= s.len() && s.take(p.len() as int) == p
}

/// The index of the first `c` in `s` at or after `i`, or `s.len()` when there is none.
pub open spec fn find_char(s: Seq<char>, c: char, i: int) -> int
    decreases s.len() - i,
{
    if i < 0 || i >= s.len() {
        s.len() as int
    } else if s[i] == c {
        i
    } else {
        find_char(s, c, i + 1)
    }
}

/// What `find_char` finds.
pub proof fn lemma_find_char(s: Seq<char>, c: char, i: int)
    requires
        0 <= i <= s.len(),
    ensures
        i <= find_char(s, c, i) <= s.len(),
        forall|j: int| i <= j < find_char(s, c, i) ==> #[trigger] s[j] != c,
        find_char(s, c, i) < s.len() ==> s[find_char(s, c, i)] == c,
    decreases s.len() - i,
{
    if i < s.len() && s[i] != c {
        lemma_find_char(s, c, i + 1);
    }
}

/// `find_char` is determined by the characters it skips and the one it stops at.
pub proof fn lemma_find_char_at(s: Seq<char>, c: char, i: int, k: int)
    requires
        0 <= i <= k <= s.len(),
        forall|j: int| i <= j < k ==> #[trigger] s[j] != c,
        k < s.len() ==> s[k] == c,
    ensures
        find_char(s, c, i) == k,
    decreases k - i,
{
    if i < k {
        lemma_find_char_at(s, c, i + 1, k);
    }
}

/// Whether `cs` begins with the characters of `p`.
pub fn has_prefix(cs: &[char], p: &str) -> (r: bool)
    ensures
        r == starts_with(cs@, p@),
{
    let pc = chars_of(p);
    if pc.len() > cs.len() {
        return false;
    }
    let mut i: usize = 0;
    while i < pc.len()
        invariant
            pc@ == p@,
            pc@.len() <= cs@.len(),
            i <= pc@.len(),
            forall|j: int| 0 <= j < i ==> cs@[j] == pc@[j],
        decreases pc.len() - i,
    {
        if cs[i] != pc[i] {
            assert(cs@.take(pc@.len() as int)[i as int] != pc@[i as int]);
            return false;
        }
        i += 1;
    }
    assert(cs@.take(pc@.len() as int) =~= pc@);
    true
}

/// Whether `cs[from..to]` is exactly the characters of `p`.
pub fn segment_equals(cs: &[char], from: usize, to: usize, p: &str) -> (r: bool)
    requires
        from <= to <= cs@.len(),
    ensures
        r == (cs@.subrange(from as int, to as int) == p@),
{
    let pc = chars_of(p);
    if pc.len() != to - from {
        return false;
    }
    let mut i: usize = 0;
    while i < pc.len()
        invariant
            pc@ == p@,
            from <= to <= cs@.len(),
            pc@.len() == to - from,
            i <= pc@.len(),
            forall|j: int| 0 <= j < i ==> cs@[from + j] == pc@[j],
        decreases pc.len() - i,
    {
        if cs[from + i] != pc[i] {
            assert(cs@.subrange(from as int, to as int)[i as int] != pc@[i as int]);
            return false;
        }
        i += 1;
    }
    assert(cs@.subrange(from as int, to as int) =~= pc@);
    true
}

/// The index of the first `c` in `cs` at or after `from`, or `cs.len()` when there is none.
pub fn find_char_from(cs: &[char], c: char, from: usize) -> (r: usize)
    requires
        from <= cs@.len(),
    ensures
        r == find_char(cs@, c, from as int),
{
    proof {
        lemma_find_char(cs@, c, from as int);
    }
    let mut i = from;
    while i < cs.len() && cs[i] != c
        invariant
            from <= i <= cs@.len(),
            find_char(cs@, c, i as int) == find_char(cs@, c, from as int),
        decreases cs.len() - i,
    {
        i += 1;
    }
    i
}


/// The pieces of `s[start..]` between the separators `sep`, as `str::split` gives them.
pub open spec fn split_from(s: Seq<char>, sep: char, start: int) -> Seq<Seq<char>>
    decreases s.len() - start,
{
    let i = find_char(s, sep, start);
    if 0 <= start <= i < s.len() {
        seq![s.subrange(start, i)] + split_from(s, sep, i + 1)
    } else {
        seq![s.subrange(start, s.len() as int)]
    }
}

/// The pieces of `s` between the separators `sep`, as `str::split` gives them.
pub open spec fn split(s: Seq<char>, sep: char) -> Seq<Seq<char>> {
    split_from(s, sep, 0)
}

/// The characters of each vector of a sequence.
pub open spec fn char_vecs(v: Seq<Vec<char>>) -> Seq<Seq<char>> {
    v.map_values(|x: Vec<char>| x@)
}

/// A vector holding `cs[from..to]`.
pub fn chars_between(cs: &[char], from: usize, to: usize) -> (r: Vec<char>)
    requires
        from <= to <= cs@.len(),
    ensures
        r@ == cs@.subrange(from as int, to as int),
{
    let mut r: Vec<char> = Vec::new();
    let mut i = from;
    while i < to
        invariant
            from <= i <= to <= cs@.len(),
            r@ == cs@.subrange(from as int, i as int),
        decreases to - i,
    {
        r.push(cs[i]);
        i += 1;
        assert(r@ =~= cs@.subrange(from as int, i as int));
    }
    r
}

/// The pieces of `cs` between the separators `sep`, as `str::split` gives them.
pub fn split_chars(cs: &[char], sep: char) -> (r: Vec<Vec<char>>)
    ensures
        char_vecs(r@) == split(cs@, sep),
{
    let mut r: Vec<Vec<char>> = Vec::new();
    let mut start: usize = 0;
    loop
        invariant
            start <= cs@.len(),
            char_vecs(r@) + split_from(cs@, sep, start as int) == split(cs@, sep),
        decreases cs@.len() - start,
    {
        let i = find_char_from(cs, sep, start);
        proof {
            lemma_find_char(cs@, sep, start as int);
        }
        let piece = chars_between(cs, start, i);
        let ghost before = r@;
        r.push(piece);
        proof {
            assert(char_vecs(r@) =~= char_vecs(before).push(piece@));
        }
        if i < cs.len() {
            proof {
                assert(split_from(cs@, sep, start as int) == seq![piece@] + split_from(cs@, sep, i + 1));
                assert(char_vecs(r@) + split_from(cs@, sep, i + 1) =~= char_vecs(before) + split_from(
                    cs@,
                    sep,
                    start as int,
                ));
            }
            start = i + 1;
        } else {
            proof {
                assert(split_from(cs@, sep, start as int) == seq![piece@]);
                assert(char_vecs(r@) =~= char_vecs(before) + split_from(cs@, sep, start as int));
            }
            return r;
        }
    }
}

} // verus!
