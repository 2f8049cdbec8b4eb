//! User flags, which can appear in rooms.
use vstd::prelude::*;

use crate::decimal::{parse_unsigned, parse_unsigned_chars};
use crate::text::{char_vecs, chars_of, split, split_chars, string_of};

verus! {

/// A single flag.
#[derive(Clone, Debug, Hash, PartialEq, Eq)]
pub struct Flag {
    /// The name of the flag, unique per user.
    pub name: String,
    /// The primary color of the flag.
    pub primary_color: FlagColor,
    /// The secondary color of the flag.
    pub secondary_color: FlagColor,
    /// The X position of the flag.
    pub x: u32,
    /// The Y position of the flag.
    pub y: u32,
}

/// All possible colors a flag can have.
#[derive(Copy, Clone, Debug, Hash, PartialEq, Eq, Structural)]
pub enum FlagColor {
    /// COLOR_RED = 1
    Red,
    /// COLOR_PURPLE = 2
    Purple,
    /// COLOR_BLUE = 3
    Blue,
    /// COLOR_CYAN = 4
    Cyan,
    /// COLOR_GREEN = 5
    Green,
    /// COLOR_YELLOW = 6
    Yellow,
    /// COLOR_ORANGE = 7
    Orange,
    /// COLOR_BROWN = 8
    Brown,
    /// COLOR_GREY = 9
    Grey,
    /// COLOR_WHITE = 10
    White,
}

/// An error resulting from trying to convert a `FlagColor` that's out of bounds.
#[derive(Copy, Clone, Debug, PartialEq, Eq, Hash, Structural)]
pub struct FlagColorError;

/// The in-game code of each flag color.
pub open spec fn flag_color_code(c: FlagColor) -> u8 {
    match c {
        FlagColor::Red => 1,
        FlagColor::Purple => 2,
        FlagColor::Blue => 3,
        FlagColor::Cyan => 4,
        FlagColor::Green => 5,
        FlagColor::Yellow => 6,
        FlagColor::Orange => 7,
        FlagColor::Brown => 8,
        FlagColor::Grey => 9,
        FlagColor::White => 10,
    }
}

/// The flag color with the in-game code `v`, if there is one (codes run from 1 to 10).
pub open spec fn flag_color_of(v: u8) -> Option<FlagColor> {
    if v == 1 {
        Some(FlagColor::Red)
    } else if v == 2 {
        Some(FlagColor::Purple)
    } else if v == 3 {
        Some(FlagColor::Blue)
    } else if v == 4 {
        Some(FlagColor::Cyan)
    } else if v == 5 {
        Some(FlagColor::Green)
    } else if v == 6 {
        Some(FlagColor::Yellow)
    } else if v == 7 {
        Some(FlagColor::Orange)
    } else if v == 8 {
        Some(FlagColor::Brown)
    } else if v == 9 {
        Some(FlagColor::Grey)
    } else if v == 10 {
        Some(FlagColor::White)
    } else {
        None
    }
}

impl FlagColor {
    /// Converts an integer color code into a flag color.
    pub fn from(v: u8) -> (r: Result<Self, FlagColorError>)
        ensures
            match flag_color_of(v) {
                Some(c) => r == Ok::<FlagColor, FlagColorError>(c),
                None => r == Err::<FlagColor, FlagColorError>(FlagColorError),
            },
    {
        match v {
            1 => Ok(FlagColor::Red),
            2 => Ok(FlagColor::Purple),
            3 => Ok(FlagColor::Blue),
            4 => Ok(FlagColor::Cyan),
            5 => Ok(FlagColor::Green),
            6 => Ok(FlagColor::Yellow),
            7 => Ok(FlagColor::Orange),
            8 => Ok(FlagColor::Brown),
            9 => Ok(FlagColor::Grey),
            10 => Ok(FlagColor::White),
            _ => Err(FlagColorError),
        }
    }

    /// The in-game integer code of this color.
    pub fn code(&self) -> (r: u8)
        ensures
            r == flag_color_code(*self),
    {
        match self {
            FlagColor::Red => 1,
            FlagColor::Purple => 2,
            FlagColor::Blue => 3,
            FlagColor::Cyan => 4,
            FlagColor::Green => 5,
            FlagColor::Yellow => 6,
            FlagColor::Orange => 7,
            FlagColor::Brown => 8,
            FlagColor::Grey => 9,
            FlagColor::White => 10,
        }
    }
}

/// Converting a color to its code and back gives the same color.
pub proof fn lemma_flag_color_roundtrip(c: FlagColor)
    ensures
        flag_color_of(flag_color_code(c)) == Some(c),
{
}

/// Converting a code to a color and back gives the same code.
pub proof fn lemma_flag_code_roundtrip(v: u8)
    requires
        flag_color_of(v) is Some,
    ensures
        flag_color_code(flag_color_of(v)->0) == v,
{
}

/// Why a flag string could not be read.
#[derive(Clone, Debug, PartialEq, Eq)]
pub enum FlagParseError {
    /// A flag description (the text between two `|`) has fewer than five `~`-separated parts.
    MissingPart {
        /// The flag description.
        flag: String,
    },
    /// A part that must be an unsigned integer is not one.
    NotANumber {
        /// The part.
        text: String,
    },
    /// A color code is not between 1 and 10.
    BadColor {
        /// The code.
        value: u8,
    },
}

/// The abstract value of a `Flag`.
pub struct FlagView {
    pub name: Seq<char>,
    pub primary_color: FlagColor,
    pub secondary_color: FlagColor,
    pub x: u32,
    pub y: u32,
}

/// The abstract value of a `FlagParseError`.
pub enum FlagParseErrorView {
    MissingPart { flag: Seq<char> },
    NotANumber { text: Seq<char> },
    BadColor { value: u8 },
}

impl View for Flag {
    type V = FlagView;

    open spec fn view(&self) -> FlagView {
        FlagView {
            name: self.name@,
            primary_color: self.primary_color,
            secondary_color: self.secondary_color,
            x: self.x,
            y: self.y,
        }
    }
}

impl View for FlagParseError {
    type V = FlagParseErrorView;

    open spec fn view(&self) -> FlagParseErrorView {
        match self {
            FlagParseError::MissingPart { flag } => FlagParseErrorView::MissingPart { flag: flag@ },
            FlagParseError::NotANumber { text } => FlagParseErrorView::NotANumber { text: text@ },
            FlagParseError::BadColor { value } => FlagParseErrorView::BadColor { value: *value },
        }
    }
}

/// Reads the color in part `i` of a flag's parts.
pub open spec fn color_part(piece: Seq<char>, parts: Seq<Seq<char>>, i: int) -> Result<
    FlagColor,
    FlagParseErrorView,
> {
    if parts.len() <= i {
        Err(FlagParseErrorView::MissingPart { flag: piece })
    } else {
        match parse_unsigned(parts[i], u8::MAX as nat) {
            None => Err(FlagParseErrorView::NotANumber { text: parts[i] }),
            Some(v) => match flag_color_of(v as u8) {
                None => Err(FlagParseErrorView::BadColor { value: v as u8 }),
                Some(c) => Ok(c),
            },
        }
    }
}

/// Reads the coordinate in part `i` of a flag's parts.
pub open spec fn coordinate_part(piece: Seq<char>, parts: Seq<Seq<char>>, i: int) -> Result<
    u32,
    FlagParseErrorView,
> {
    if parts.len() <= i {
        Err(FlagParseErrorView::MissingPart { flag: piece })
    } else {
        match parse_unsigned(parts[i], u32::MAX as nat) {
            None => Err(FlagParseErrorView::NotANumber { text: parts[i] }),
            Some(v) => Ok(v as u32),
        }
    }
}

/// The flag that one description `name~primary~secondary~x~y` denotes; parts after the
/// fifth are ignored, and the first part that is missing or wrong decides the error.
pub open spec fn parse_flag(piece: Seq<char>) -> Result<FlagView, FlagParseErrorView> {
    let parts = split(piece, '~');
    match color_part(piece, parts, 1) {
        Err(e) => Err(e),
        Ok(primary) => match color_part(piece, parts, 2) {
            Err(e) => Err(e),
            Ok(secondary) => match coordinate_part(piece, parts, 3) {
                Err(e) => Err(e),
                Ok(x) => match coordinate_part(piece, parts, 4) {
                    Err(e) => Err(e),
                    Ok(y) => Ok(
                        FlagView {
                            name: parts[0],
                            primary_color: primary,
                            secondary_color: secondary,
                            x,
                            y,
                        },
                    ),
                },
            },
        },
    }
}

/// The flags of the descriptions `pieces`, or the error of the first one that is wrong.
pub open spec fn parse_flag_list(pieces: Seq<Seq<char>>) -> Result<Seq<FlagView>, FlagParseErrorView>
    decreases pieces.len(),
{
    if pieces.len() == 0 {
        Ok(Seq::empty())
    } else {
        match parse_flag_list(pieces.drop_last()) {
            Err(e) => Err(e),
            Ok(v) => match parse_flag(pieces.last()) {
                Err(e) => Err(e),
                Ok(f) => Ok(v.push(f)),
            },
        }
    }
}

/// The flags that a room's flag string denotes: descriptions separated by `|`, the empty
/// string meaning no flags.
pub open spec fn parse_flags_text(s: Seq<char>) -> Result<Seq<FlagView>, FlagParseErrorView> {
    if s.len() == 0 {
        Ok(Seq::empty())
    } else {
        parse_flag_list(split(s, '|'))
    }
}

/// An error in the first `k` descriptions is the error of the whole list.
proof fn lemma_flag_list_error_extends(ps: Seq<Seq<char>>, k: int)
    requires
        0 <= k <= ps.len(),
        parse_flag_list(ps.take(k)) is Err,
    ensures
        parse_flag_list(ps.take(ps.len() as int)) == parse_flag_list(ps.take(k)),
    decreases ps.len() - k,
{
    if k < ps.len() {
        assert(ps.take(k + 1).drop_last() =~= ps.take(k));
        lemma_flag_list_error_extends(ps, k + 1);
    }
}

/// The abstract value of a parse result.
pub open spec fn flags_result_view(r: Result<Vec<Flag>, FlagParseError>) -> Result<
    Seq<FlagView>,
    FlagParseErrorView,
> {
    match r {
        Ok(v) => Ok(v@.map_values(|f: Flag| f@)),
        Err(e) => Err(e@),
    }
}

fn color_at(piece: &Vec<char>, parts: &Vec<Vec<char>>, i: usize) -> (r: Result<FlagColor, FlagParseError>)
    requires
        char_vecs(parts@) == split(piece@, '~'),
    ensures
        match r {
            Ok(c) => color_part(piece@, split(piece@, '~'), i as int) == Ok::<
                FlagColor,
                FlagParseErrorView,
            >(c),
            Err(e) => color_part(piece@, split(piece@, '~'), i as int) == Err::<
                FlagColor,
                FlagParseErrorView,
            >(e@),
        },
{
    if parts.len() <= i {
        let flag = string_of(piece.as_slice(), 0, piece.len());
        assert(piece@.subrange(0, piece@.len() as int) =~= piece@);
        return Err(FlagParseError::MissingPart { flag });
    }
    assert(char_vecs(parts@)[i as int] == parts@[i as int]@);
    let part = &parts[i];
    match parse_unsigned_chars(part.as_slice(), 0, part.len(), u8::MAX as u64) {
        None => {
            assert(part@.subrange(0, part@.len() as int) =~= part@);
            Err(FlagParseError::NotANumber { text: string_of(part.as_slice(), 0, part.len()) })
        },
        Some(v) => {
            assert(part@.subrange(0, part@.len() as int) =~= part@);
            match FlagColor::from(v as u8) {
                Ok(c) => Ok(c),
                Err(_) => Err(FlagParseError::BadColor { value: v as u8 }),
            }
        },
    }
}

fn coordinate_at(piece: &Vec<char>, parts: &Vec<Vec<char>>, i: usize) -> (r: Result<u32, FlagParseError>)
    requires
        char_vecs(parts@) == split(piece@, '~'),
    ensures
        match r {
            Ok(c) => coordinate_part(piece@, split(piece@, '~'), i as int) == Ok::<
                u32,
                FlagParseErrorView,
            >(c),
            Err(e) => coordinate_part(piece@, split(piece@, '~'), i as int) == Err::<
                u32,
                FlagParseErrorView,
            >(e@),
        },
{
    if parts.len() <= i {
        let flag = string_of(piece.as_slice(), 0, piece.len());
        assert(piece@.subrange(0, piece@.len() as int) =~= piece@);
        return Err(FlagParseError::MissingPart { flag });
    }
    assert(char_vecs(parts@)[i as int] == parts@[i as int]@);
    let part = &parts[i];
    assert(part@.subrange(0, part@.len() as int) =~= part@);
    match parse_unsigned_chars(part.as_slice(), 0, part.len(), u32::MAX as u64) {
        None => Err(FlagParseError::NotANumber { text: string_of(part.as_slice(), 0, part.len()) }),
        Some(v) => Ok(v as u32),
    }
}

/// Reads one flag description `name~primary~secondary~x~y`.
fn parse_one_flag(piece: &Vec<char>) -> (r: Result<Flag, FlagParseError>)
    ensures
        match r {
            Ok(f) => parse_flag(piece@) == Ok::<FlagView, FlagParseErrorView>(f@),
            Err(e) => parse_flag(piece@) == Err::<FlagView, FlagParseErrorView>(e@),
        },
{
    let parts = split_chars(piece.as_slice(), '~');
    let primary_color = color_at(piece, &parts, 1)?;
    let secondary_color = color_at(piece, &parts, 2)?;
    let x = coordinate_at(piece, &parts, 3)?;
    let y = coordinate_at(piece, &parts, 4)?;
    proof {
        assert(char_vecs(parts@)[0] == parts@[0]@);
    }
    let name = string_of(parts[0].as_slice(), 0, parts[0].len());
    assert(parts@[0]@.subrange(0, parts@[0]@.len() as int) =~= parts@[0]@);
    Ok(Flag { name, primary_color, secondary_color, x, y })
}

/// Reads a room's flag string, such as `Flag571~2~3~14~7|Flag2~1~1~20~30`: flag descriptions
/// `name~primary~secondary~x~y` separated by `|`. The empty string holds no flags.
pub fn parse_flags(text: &str) -> (r: Result<Vec<Flag>, FlagParseError>)
    ensures
        flags_result_view(r) == parse_flags_text(text@),
{
    let cs = chars_of(text);
    let mut flags: Vec<Flag> = Vec::new();
    if cs.len() == 0 {
        assert(flags@.map_values(|f: Flag| f@) =~= Seq::<FlagView>::empty());
        return Ok(flags);
    }
    let pieces = split_chars(cs.as_slice(), '|');
    let ghost ps = char_vecs(pieces@);
    let mut i: usize = 0;
    assert(ps.take(0) =~= Seq::<Seq<char>>::empty());
    assert(flags@.map_values(|f: Flag| f@) =~= Seq::<FlagView>::empty());
    while i < pieces.len()
        invariant
            i <= pieces@.len(),
            ps == char_vecs(pieces@),
            ps == split(text@, '|'),
            text@.len() > 0,
            parse_flag_list(ps.take(i as int)) == Ok::<Seq<FlagView>, FlagParseErrorView>(
                flags@.map_values(|f: Flag| f@),
            ),
        decreases pieces.len() - i,
    {
        assert(ps.take(i + 1).drop_last() =~= ps.take(i as int));
        assert(ps[i as int] == pieces@[i as int]@);
        match parse_one_flag(&pieces[i]) {
            Ok(f) => {
                let ghost before = flags@;
                flags.push(f);
                assert(flags@.map_values(|f: Flag| f@) =~= before.map_values(|f: Flag| f@).push(f@));
                i += 1;
            },
            Err(e) => {
                proof {
                    assert(ps.take(i + 1).last() == ps[i as int]);
                    assert(parse_flag_list(ps.take(i + 1)) == Err::<Seq<FlagView>, FlagParseErrorView>(e@));
                    lemma_flag_list_error_extends(ps, i + 1);
                    assert(ps.take(ps.len() as int) =~= ps);
                    assert(parse_flag_list(ps) == Err::<Seq<FlagView>, FlagParseErrorView>(e@));
                    assert(parse_flags_text(text@) == Err::<Seq<FlagView>, FlagParseErrorView>(e@));
                }
                return Err(e);
            },
        }
    }
    assert(ps.take(pieces@.len() as int) =~= ps);
    Ok(flags)
}

} // verus!
