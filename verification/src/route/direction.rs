use vstd::prelude::*;
use crate::error::{Error, Result};
use crate::modeling::{ClassIdent, CodebaseClassID, NonPrimitive};
use crate::text::{chars_of, is_white_space, str_equal, string_from_chars, string_of, trim, trim_bounds, trim_end, trim_start};

verus! {

/// The compass bearing of a direction, or `Vertical` for straight up or down.
#[derive(Debug, Clone, Copy, PartialEq, Eq, Structural)]
pub enum HorizontalDirection {
    Vertical,
    North,
    Northeast,
    East,
    Southeast,
    South,
    Southwest,
    West,
    Northwest,
}

impl HorizontalDirection {
    pub open spec fn spec_name(self) -> &'static str {
        match self {
            HorizontalDirection::Vertical => "Vertical",
            HorizontalDirection::North => "North",
            HorizontalDirection::Northeast => "Northeast",
            HorizontalDirection::East => "East",
            HorizontalDirection::Southeast => "Southeast",
            HorizontalDirection::South => "South",
            HorizontalDirection::Southwest => "Southwest",
            HorizontalDirection::West => "West",
            HorizontalDirection::Northwest => "Northwest",
        }
    }

    pub open spec fn spec_name_lowercase(self) -> &'static str {
        match self {
            HorizontalDirection::Vertical => "vertical",
            HorizontalDirection::North => "north",
            HorizontalDirection::Northeast => "northeast",
            HorizontalDirection::East => "east",
            HorizontalDirection::Southeast => "southeast",
            HorizontalDirection::South => "south",
            HorizontalDirection::Southwest => "southwest",
            HorizontalDirection::West => "west",
            HorizontalDirection::Northwest => "northwest",
        }
    }

    pub fn name(&self) -> (r: &'static str)
        ensures
            r == self.spec_name(),
    {
        match self {
            Self::Vertical => "Vertical",
            Self::North => "North",
            Self::Northeast => "Northeast",
            Self::East => "East",
            Self::Southeast => "Southeast",
            Self::South => "South",
            Self::Southwest => "Southwest",
            Self::West => "West",
            Self::Northwest => "Northwest",
        }
    }

    pub fn name_lowercase(&self) -> (r: &'static str)
        ensures
            r == self.spec_name_lowercase(),
    {
        match self {
            Self::Vertical => "vertical",
            Self::North => "north",
            Self::Northeast => "northeast",
            Self::East => "east",
            Self::Southeast => "southeast",
            Self::South => "south",
            Self::Southwest => "southwest",
            Self::West => "west",
            Self::Northwest => "northwest",
        }
    }
}

/// Whether a direction goes down, stays level, or goes up.
#[derive(Debug, Clone, Copy, PartialEq, Eq, Structural)]
pub enum VerticalDirection {
    Down,
    Level,
    Up,
}

impl VerticalDirection {
    pub open spec fn spec_name(self) -> &'static str {
        match self {
            VerticalDirection::Down => "Down",
            VerticalDirection::Level => "Level",
            VerticalDirection::Up => "Up",
        }
    }

    pub fn name(&self) -> (r: &'static str)
        ensures
            r == self.spec_name(),
    {
        match self {
            Self::Down => "Down",
            Self::Level => "Level",
            Self::Up => "Up",
        }
    }
}

/// The ASCII lower case of a character; any other character is itself.
pub open spec fn ascii_lower(c: char) -> char {
    if 'A' <= c && c <= 'Z' {
        ((c as u32) + 32) as char
    } else {
        c
    }
}

/// The ASCII lower case of a string.
pub open spec fn ascii_lower_seq(s: Seq<char>) -> Seq<char> {
    s.map_values(|c: char| ascii_lower(c))
}

/// The horizontal direction whose name is `name`, ASCII case aside.
pub open spec fn horizontal_named(name: Seq<char>) -> Option<HorizontalDirection> {
    let n = ascii_lower_seq(name);
    if n == "vertical"@ {
        Some(HorizontalDirection::Vertical)
    } else if n == "north"@ {
        Some(HorizontalDirection::North)
    } else if n == "northeast"@ {
        Some(HorizontalDirection::Northeast)
    } else if n == "east"@ {
        Some(HorizontalDirection::East)
    } else if n == "southeast"@ {
        Some(HorizontalDirection::Southeast)
    } else if n == "south"@ {
        Some(HorizontalDirection::South)
    } else if n == "southwest"@ {
        Some(HorizontalDirection::Southwest)
    } else if n == "west"@ {
        Some(HorizontalDirection::West)
    } else if n == "northwest"@ {
        Some(HorizontalDirection::Northwest)
    } else {
        None
    }
}

/// The vertical direction whose name is `name`, ASCII case aside.
pub open spec fn vertical_named(name: Seq<char>) -> Option<VerticalDirection> {
    let n = ascii_lower_seq(name);
    if n == "down"@ {
        Some(VerticalDirection::Down)
    } else if n == "level"@ {
        Some(VerticalDirection::Level)
    } else if n == "up"@ {
        Some(VerticalDirection::Up)
    } else {
        None
    }
}

/// The text before the first `&` of `s` (all of `s` when it has none).
pub open spec fn before_amp(s: Seq<char>) -> Seq<char> {
    match s.index_of_first('&') {
        Some(i) => s.subrange(0, i),
        None => s,
    }
}

/// The text after the first `&` of `s`, if it has one.
pub open spec fn after_amp(s: Seq<char>) -> Option<Seq<char>> {
    match s.index_of_first('&') {
        Some(i) => Some(s.subrange(i + 1, s.len() as int)),
        None => None,
    }
}

/// A direction: a horizontal bearing and a vertical movement.
#[derive(Debug, Clone, Copy, PartialEq, Eq, Structural)]
pub struct Direction {
    horizontal: HorizontalDirection,
    vertical: VerticalDirection,
}

/// The text before the first space of `s` (all of `s` when it has none).
pub open spec fn before_space(s: Seq<char>) -> Seq<char> {
    match s.index_of_first(' ') {
        Some(i) => s.subrange(0, i),
        None => s,
    }
}

/// The text after the first space of `s`, if it has one.
pub open spec fn after_space(s: Seq<char>) -> Option<Seq<char>> {
    match s.index_of_first(' ') {
        Some(i) => Some(s.subrange(i + 1, s.len() as int)),
        None => None,
    }
}

/// A direction written as its name shows one that moves up or down: "Up" or "Down" alone (straight up or down),
/// or followed by a space and the name of a bearing; the text trimmed and each word matched regardless of
/// ASCII case.
pub open spec fn moving_named(s: Seq<char>) -> Option<(HorizontalDirection, VerticalDirection)> {
    let t = trim(s, true);
    match vertical_named(t) {
        Some(VerticalDirection::Up) => Some((HorizontalDirection::Vertical, VerticalDirection::Up)),
        Some(VerticalDirection::Down) => Some((HorizontalDirection::Vertical, VerticalDirection::Down)),
        _ => match after_space(t) {
            None => None,
            Some(tail) => match vertical_named(trim(before_space(t), true)) {
                Some(VerticalDirection::Level) => None,
                Some(v) => match horizontal_named(trim(tail, true)) {
                    Some(h) => Some((h, v)),
                    None => None,
                },
                None => None,
            },
        },
    }
}

/// What parsing `s` as a direction gives. Either `"<horizontal> & <vertical>"`, each name trimmed and matched
/// regardless of ASCII case; or, without `&`, the name that a direction shows (a bearing alone is level). The
/// error names the part that did not parse.
pub open spec fn parsed_direction(s: Seq<char>) -> core::result::Result<(HorizontalDirection, VerticalDirection), &'static str> {
    match after_amp(s) {
        None => match horizontal_named(trim(s, true)) {
            Some(h) => Ok((h, VerticalDirection::Level)),
            None => match moving_named(s) {
                Some(d) => Ok(d),
                None => Err("HorizontalDirection"),
            },
        },
        Some(rest) => match horizontal_named(trim(before_amp(s), true)) {
            None => Err("HorizontalDirection"),
            Some(h) => match vertical_named(trim(before_amp(rest), true)) {
                None => Err("VerticalDirection"),
                Some(v) => Ok((h, v)),
            },
        },
    }
}

fn to_ascii_lower(c: char) -> (r: char)
    ensures
        r == ascii_lower(c),
{
    if 'A' <= c && c <= 'Z' {
        let n: u32 = c as u32;
        let lower: u8 = (n + 32) as u8;
        lower as char
    } else {
        c
    }
}

/// The ASCII lower case of `v[from..to]`, as a string.
fn lower_string(v: &Vec<char>, from: usize, to: usize) -> (r: String)
    requires
        from <= to <= v.len(),
    ensures
        r@ == ascii_lower_seq(v@.subrange(from as int, to as int)),
{
    let mut out: Vec<char> = Vec::new();
    let mut i: usize = from;
    while i < to
        invariant
            from <= i <= to <= v.len(),
            out@ == ascii_lower_seq(v@.subrange(from as int, i as int)),
        decreases to - i,
    {
        out.push(to_ascii_lower(v[i]));
        assert(ascii_lower_seq(v@.subrange(from as int, i + 1)) =~= ascii_lower_seq(v@.subrange(from as int, i as int)).push(ascii_lower(v@[i as int])));
        i = i + 1;
    }
    string_from_chars(&out)
}

/// The index of the first `&` in `v[from..]`, or `v.len()`.
fn find_amp(v: &Vec<char>, from: usize) -> (r: usize)
    requires
        from <= v.len(),
    ensures
        from <= r <= v.len(),
        match v@.subrange(from as int, v.len() as int).index_of_first('&') {
            Some(i) => r == from + i,
            None => r == v.len(),
        },
{
    let ghost s = v@.subrange(from as int, v.len() as int);
    proof { s.index_of_first_ensures('&'); }
    let mut i: usize = from;
    while i < v.len()
        invariant
            from <= i <= v.len(),
            s == v@.subrange(from as int, v.len() as int),
            forall|j: int| 0 <= j < i - from ==> s[j] != '&',
        decreases v.len() - i,
    {
        if v[i] == '&' {
            proof {
                assert(s[i - from] == '&');
                s.index_of_first_ensures('&');
                let k = s.index_of_first('&').unwrap();
                assert(k == i - from) by {
                    if k < i - from {
                        assert(s[k] != '&');
                    }
                }
            }
            return i;
        }
        i = i + 1;
    }
    proof {
        if s.contains('&') {
            let k = choose|k: int| 0 <= k < s.len() && s[k] == '&';
            assert(s[k] != '&');
        }
    }
    v.len()
}

/// The index of the first space in `v[from..to]`, or `to`.
fn find_space(v: &Vec<char>, from: usize, to: usize) -> (r: usize)
    requires
        from <= to <= v.len(),
    ensures
        from <= r <= to,
        match v@.subrange(from as int, to as int).index_of_first(' ') {
            Some(i) => r == from + i,
            None => r == to,
        },
{
    let ghost s = v@.subrange(from as int, to as int);
    proof { s.index_of_first_ensures(' '); }
    let mut i: usize = from;
    while i < to
        invariant
            from <= i <= to <= v.len(),
            s == v@.subrange(from as int, to as int),
            forall|j: int| 0 <= j < i - from ==> s[j] != ' ',
        decreases to - i,
    {
        if v[i] == ' ' {
            proof {
                assert(s[i - from] == ' ');
                s.index_of_first_ensures(' ');
                let k = s.index_of_first(' ').unwrap();
                assert(k == i - from) by {
                    if k < i - from {
                        assert(s[k] != ' ');
                    }
                }
            }
            return i;
        }
        i = i + 1;
    }
    proof {
        if s.contains(' ') {
            let k = choose|k: int| 0 <= k < s.len() && s[k] == ' ';
            assert(s[k] != ' ');
        }
    }
    to
}

/// The direction that moves up or down named by the whole of `v`.
fn moving_from_chars(v: &Vec<char>) -> (r: Option<(HorizontalDirection, VerticalDirection)>)
    ensures
        r == moving_named(v@),
{
    let n = v.len();
    assert(v@.subrange(0, n as int) =~= v@);
    match VerticalDirection::from_chars(v, 0, n) {
        Some(VerticalDirection::Up) => return Some((HorizontalDirection::Vertical, VerticalDirection::Up)),
        Some(VerticalDirection::Down) => return Some((HorizontalDirection::Vertical, VerticalDirection::Down)),
        _ => {},
    }
    let (lo, hi) = trim_bounds(v, 0, n, true);
    let ghost t = v@.subrange(lo as int, hi as int);
    assert(t == trim(v@, true));
    let sp = find_space(v, lo, hi);
    proof { t.index_of_first_ensures(' '); }
    if sp == hi {
        assert(after_space(t) is None);
        return None;
    }
    assert(before_space(t) =~= v@.subrange(lo as int, sp as int));
    assert(after_space(t) == Some(v@.subrange(sp + 1, hi as int))) by {
        assert(t.subrange(sp - lo + 1, t.len() as int) =~= v@.subrange(sp + 1, hi as int));
    }
    match VerticalDirection::from_chars(v, lo, sp) {
        Some(VerticalDirection::Level) => None,
        Some(vertical) => match HorizontalDirection::from_chars(v, sp + 1, hi) {
            Some(horizontal) => Some((horizontal, vertical)),
            None => None,
        },
        None => None,
    }
}

impl HorizontalDirection {
    /// The horizontal direction named by `v[from..to]`, trimmed and regardless of ASCII case.
    fn from_chars(v: &Vec<char>, from: usize, to: usize) -> (r: Option<Self>)
        requires
            from <= to <= v.len(),
        ensures
            r == horizontal_named(trim(v@.subrange(from as int, to as int), true)),
    {
        let (lo, hi) = trim_bounds(v, from, to, true);
        let name = lower_string(v, lo, hi);
        let n = name.as_str();
        proof {
            reveal_strlit("vertical");
            reveal_strlit("north");
            reveal_strlit("northeast");
            reveal_strlit("east");
            reveal_strlit("southeast");
            reveal_strlit("south");
            reveal_strlit("southwest");
            reveal_strlit("west");
            reveal_strlit("northwest");
        }
        if str_equal(n, "vertical") {
            Some(Self::Vertical)
        } else if str_equal(n, "north") {
            Some(Self::North)
        } else if str_equal(n, "northeast") {
            Some(Self::Northeast)
        } else if str_equal(n, "east") {
            Some(Self::East)
        } else if str_equal(n, "southeast") {
            Some(Self::Southeast)
        } else if str_equal(n, "south") {
            Some(Self::South)
        } else if str_equal(n, "southwest") {
            Some(Self::Southwest)
        } else if str_equal(n, "west") {
            Some(Self::West)
        } else if str_equal(n, "northwest") {
            Some(Self::Northwest)
        } else {
            None
        }
    }
}

impl VerticalDirection {
    /// The vertical direction named by `v[from..to]`, trimmed and regardless of ASCII case.
    fn from_chars(v: &Vec<char>, from: usize, to: usize) -> (r: Option<Self>)
        requires
            from <= to <= v.len(),
        ensures
            r == vertical_named(trim(v@.subrange(from as int, to as int), true)),
    {
        let (lo, hi) = trim_bounds(v, from, to, true);
        let name = lower_string(v, lo, hi);
        let n = name.as_str();
        proof {
            reveal_strlit("down");
            reveal_strlit("level");
            reveal_strlit("up");
        }
        if str_equal(n, "down") {
            Some(Self::Down)
        } else if str_equal(n, "level") {
            Some(Self::Level)
        } else if str_equal(n, "up") {
            Some(Self::Up)
        } else {
            None
        }
    }
}

impl NonPrimitive for Direction {
    open spec fn spec_class_ident(&self) -> ClassIdent {
        Direction::spec_class_ident_const()
    }

    fn class_ident(&self) -> (r: ClassIdent) {
        Self::class_ident_const()
    }
}

impl Direction {
    pub closed spec fn spec_horizontal(self) -> HorizontalDirection {
        self.horizontal
    }

    pub closed spec fn spec_vertical(self) -> VerticalDirection {
        self.vertical
    }

    pub open spec fn spec_class_ident_const() -> ClassIdent {
        ClassIdent { class_id: CodebaseClassID::Direction.spec_class_id(), classname: "Direction" }
    }

    pub fn new(horizontal: HorizontalDirection, vertical: VerticalDirection) -> (r: Self)
        ensures
            r.spec_horizontal() == horizontal,
            r.spec_vertical() == vertical,
    {
        Self { horizontal, vertical }
    }

    pub fn level(horizontal: HorizontalDirection) -> (r: Self)
        ensures
            r.spec_horizontal() == horizontal,
            r.spec_vertical() == VerticalDirection::Level,
    {
        Self { horizontal, vertical: VerticalDirection::Level }
    }

    pub fn up() -> (r: Self)
        ensures
            r.spec_horizontal() == HorizontalDirection::Vertical,
            r.spec_vertical() == VerticalDirection::Up,
    {
        Self { horizontal: HorizontalDirection::Vertical, vertical: VerticalDirection::Up }
    }

    pub fn down() -> (r: Self)
        ensures
            r.spec_horizontal() == HorizontalDirection::Vertical,
            r.spec_vertical() == VerticalDirection::Down,
    {
        Self { horizontal: HorizontalDirection::Vertical, vertical: VerticalDirection::Down }
    }

    pub fn h(&self) -> (r: HorizontalDirection)
        ensures
            r == self.spec_horizontal(),
    {
        self.horizontal
    }

    pub fn v(&self) -> (r: VerticalDirection)
        ensures
            r == self.spec_vertical(),
    {
        self.vertical
    }

    pub fn horizontal(&self) -> (r: HorizontalDirection)
        ensures
            r == self.spec_horizontal(),
    {
        self.horizontal
    }

    pub fn vertical(&self) -> (r: VerticalDirection)
        ensures
            r == self.spec_vertical(),
    {
        self.vertical
    }

    pub fn is_level(&self) -> (r: bool)
        ensures
            r == (self.spec_vertical() == VerticalDirection::Level),
    {
        self.vertical == VerticalDirection::Level
    }

    pub fn class_ident_const() -> (r: ClassIdent)
        ensures
            r == Self::spec_class_ident_const(),
    {
        ClassIdent::new(CodebaseClassID::Direction.class_id(), "Direction")
    }

    /// The name of the direction: the horizontal name when level, else "Up" or "Down" before it (alone when
    /// vertical).
    pub open spec fn spec_name(self) -> &'static str {
        match self.spec_vertical() {
            VerticalDirection::Level => self.spec_horizontal().spec_name(),
            VerticalDirection::Up => match self.spec_horizontal() {
                HorizontalDirection::Vertical => "Up",
                HorizontalDirection::North => "Up North",
                HorizontalDirection::Northeast => "Up Northeast",
                HorizontalDirection::East => "Up East",
                HorizontalDirection::Southeast => "Up Southeast",
                HorizontalDirection::South => "Up South",
                HorizontalDirection::Southwest => "Up Southwest",
                HorizontalDirection::West => "Up West",
                HorizontalDirection::Northwest => "Up Northwest",
            },
            VerticalDirection::Down => match self.spec_horizontal() {
                HorizontalDirection::Vertical => "Down",
                HorizontalDirection::North => "Down North",
                HorizontalDirection::Northeast => "Down Northeast",
                HorizontalDirection::East => "Down East",
                HorizontalDirection::Southeast => "Down Southeast",
                HorizontalDirection::South => "Down South",
                HorizontalDirection::Southwest => "Down Southwest",
                HorizontalDirection::West => "Down West",
                HorizontalDirection::Northwest => "Down Northwest",
            },
        }
    }

    /// The lower-case name of the direction.
    pub open spec fn spec_name_lowercase(self) -> &'static str {
        match self.spec_vertical() {
            VerticalDirection::Level => self.spec_horizontal().spec_name_lowercase(),
            VerticalDirection::Up => match self.spec_horizontal() {
                HorizontalDirection::Vertical => "up",
                HorizontalDirection::North => "up north",
                HorizontalDirection::Northeast => "up northeast",
                HorizontalDirection::East => "up east",
                HorizontalDirection::Southeast => "up southeast",
                HorizontalDirection::South => "up south",
                HorizontalDirection::Southwest => "up southwest",
                HorizontalDirection::West => "up west",
                HorizontalDirection::Northwest => "up northwest",
            },
            VerticalDirection::Down => match self.spec_horizontal() {
                HorizontalDirection::Vertical => "down",
                HorizontalDirection::North => "down north",
                HorizontalDirection::Northeast => "down northeast",
                HorizontalDirection::East => "down east",
                HorizontalDirection::Southeast => "down southeast",
                HorizontalDirection::South => "down south",
                HorizontalDirection::Southwest => "down southwest",
                HorizontalDirection::West => "down west",
                HorizontalDirection::Northwest => "down northwest",
            },
        }
    }

    pub fn name(&self) -> (r: &'static str)
        ensures
            r == self.spec_name(),
    {
        match self.vertical {
            VerticalDirection::Level => self.horizontal.name(),
            VerticalDirection::Up => match self.horizontal {
                HorizontalDirection::Vertical => "Up",
                HorizontalDirection::North => "Up North",
                HorizontalDirection::Northeast => "Up Northeast",
                HorizontalDirection::East => "Up East",
                HorizontalDirection::Southeast => "Up Southeast",
                HorizontalDirection::South => "Up South",
                HorizontalDirection::Southwest => "Up Southwest",
                HorizontalDirection::West => "Up West",
                HorizontalDirection::Northwest => "Up Northwest",
            },
            VerticalDirection::Down => match self.horizontal {
                HorizontalDirection::Vertical => "Down",
                HorizontalDirection::North => "Down North",
                HorizontalDirection::Northeast => "Down Northeast",
                HorizontalDirection::East => "Down East",
                HorizontalDirection::Southeast => "Down Southeast",
                HorizontalDirection::South => "Down South",
                HorizontalDirection::Southwest => "Down Southwest",
                HorizontalDirection::West => "Down West",
                HorizontalDirection::Northwest => "Down Northwest",
            },
        }
    }

    pub fn name_lowercase(&self) -> (r: &'static str)
        ensures
            r == self.spec_name_lowercase(),
    {
        match self.vertical {
            VerticalDirection::Level => self.horizontal.name_lowercase(),
            VerticalDirection::Up => match self.horizontal {
                HorizontalDirection::Vertical => "up",
                HorizontalDirection::North => "up north",
                HorizontalDirection::Northeast => "up northeast",
                HorizontalDirection::East => "up east",
                HorizontalDirection::Southeast => "up southeast",
                HorizontalDirection::South => "up south",
                HorizontalDirection::Southwest => "up southwest",
                HorizontalDirection::West => "up west",
                HorizontalDirection::Northwest => "up northwest",
            },
            VerticalDirection::Down => match self.horizontal {
                HorizontalDirection::Vertical => "down",
                HorizontalDirection::North => "down north",
                HorizontalDirection::Northeast => "down northeast",
                HorizontalDirection::East => "down east",
                HorizontalDirection::Southeast => "down southeast",
                HorizontalDirection::South => "down south",
                HorizontalDirection::Southwest => "down southwest",
                HorizontalDirection::West => "down west",
                HorizontalDirection::Northwest => "down northwest",
            },
        }
    }

    /// Parses `"<horizontal> & <vertical>"`, or the name that a direction shows; the error is `Parsing` of the
    /// part that did not parse, with the whole text as its source.
    pub fn parse(s: &str) -> (r: Result<Self>)
        ensures
            match parsed_direction(s@) {
                Ok((h, v)) => r matches Ok(d) && d.spec_horizontal() == h && d.spec_vertical() == v,
                Err(what) => r matches Err(Error::Parsing { what: w, src }) && w == what && src@ == s@,
            },
    {
        let chars = chars_of(s);
        let n = chars.len();
        let first = find_amp(&chars, 0);
        assert(chars@.subrange(0, n as int) =~= s@);
        if first == n {
            proof {
                s@.index_of_first_ensures('&');
                assert(after_amp(s@) is None);
            }
            match HorizontalDirection::from_chars(&chars, 0, n) {
                Some(horizontal) => return Ok(Self { horizontal, vertical: VerticalDirection::Level }),
                None => {},
            }
            return match moving_from_chars(&chars) {
                Some((horizontal, vertical)) => Ok(Self { horizontal, vertical }),
                None => Err(Error::Parsing { what: "HorizontalDirection", src: string_of(s) }),
            };
        }
        let horizontal = match HorizontalDirection::from_chars(&chars, 0, first) {
            Some(h) => h,
            None => {
                assert(chars@.subrange(0, first as int) =~= before_amp(s@));
                return Err(Error::Parsing { what: "HorizontalDirection", src: string_of(s) });
            },
        };
        assert(chars@.subrange(0, first as int) =~= before_amp(s@));
        let ghost rest = s@.subrange(first + 1, n as int);
        assert(after_amp(s@) == Some(rest));
        let second = find_amp(&chars, first + 1);
        assert(chars@.subrange(first + 1, n as int) =~= rest);
        assert(chars@.subrange(first + 1, second as int) =~= before_amp(rest));
        match VerticalDirection::from_chars(&chars, first + 1, second) {
            Some(vertical) => Ok(Self { horizontal, vertical }),
            None => Err(Error::Parsing { what: "VerticalDirection", src: string_of(s) }),
        }
    }
}

impl core::str::FromStr for Direction {
    type Err = Error;

    fn from_str(s: &str) -> Result<Self> {
        Self::parse(s)
    }
}

/// The name of a bearing: plain letters, which parse back to it.
proof fn lemma_bearing_name(h: HorizontalDirection)
    ensures
        horizontal_named(h.spec_name()@) == Some(h),
        trim(h.spec_name()@, true) == h.spec_name()@,
        !h.spec_name()@.contains('&'),
        !h.spec_name()@.contains(' '),
        h.spec_name()@.len() >= 4,
        ascii_lower_seq(h.spec_name()@) == h.spec_name_lowercase()@,
        h.spec_name_lowercase()@[0] != 'u' && h.spec_name_lowercase()@[0] != 'd',
        !is_white_space(h.spec_name()@[0]),
        !is_white_space(h.spec_name()@[h.spec_name()@.len() - 1]),
{
    reveal_strlit("Vertical");
    reveal_strlit("North");
    reveal_strlit("Northeast");
    reveal_strlit("East");
    reveal_strlit("Southeast");
    reveal_strlit("South");
    reveal_strlit("Southwest");
    reveal_strlit("West");
    reveal_strlit("Northwest");
    reveal_strlit("vertical");
    reveal_strlit("north");
    reveal_strlit("northeast");
    reveal_strlit("east");
    reveal_strlit("southeast");
    reveal_strlit("south");
    reveal_strlit("southwest");
    reveal_strlit("west");
    reveal_strlit("northwest");
    let n = h.spec_name()@;
    assert(!n.contains('&')) by {
        if n.contains('&') {
            let i = choose|i: int| 0 <= i < n.len() && n[i] == '&';
            assert(n[i] == '&');
        }
    }
    assert(!n.contains(' ')) by {
        if n.contains(' ') {
            let i = choose|i: int| 0 <= i < n.len() && n[i] == ' ';
            assert(n[i] == ' ');
        }
    }
    assert(trim_start(n, true) == n);
    assert(trim_end(n, true) == n);
    assert(ascii_lower_seq(n) =~= h.spec_name_lowercase()@);
    match h {
        HorizontalDirection::Vertical => {},
        HorizontalDirection::North => {
            assert(("north"@).len() != ("vertical"@).len());
        },
        HorizontalDirection::Northeast => {
            assert(("northeast"@).len() != ("vertical"@).len());
            assert(("northeast"@).len() != ("north"@).len());
        },
        HorizontalDirection::East => {
            assert(("east"@).len() != ("vertical"@).len());
            assert(("east"@).len() != ("north"@).len());
            assert(("east"@).len() != ("northeast"@).len());
        },
        HorizontalDirection::Southeast => {
            assert(("southeast"@).len() != ("vertical"@).len());
            assert(("southeast"@).len() != ("north"@).len());
            assert(("southeast"@)[0] != ("northeast"@)[0]);
            assert(("southeast"@).len() != ("east"@).len());
        },
        HorizontalDirection::South => {
            assert(("south"@).len() != ("vertical"@).len());
            assert(("south"@)[0] != ("north"@)[0]);
            assert(("south"@).len() != ("northeast"@).len());
            assert(("south"@).len() != ("east"@).len());
            assert(("south"@).len() != ("southeast"@).len());
        },
        HorizontalDirection::Southwest => {
            assert(("southwest"@).len() != ("vertical"@).len());
            assert(("southwest"@).len() != ("north"@).len());
            assert(("southwest"@)[0] != ("northeast"@)[0]);
            assert(("southwest"@).len() != ("east"@).len());
            assert(("southwest"@)[5] != ("southeast"@)[5]);
            assert(("southwest"@).len() != ("south"@).len());
        },
        HorizontalDirection::West => {
            assert(("west"@).len() != ("vertical"@).len());
            assert(("west"@).len() != ("north"@).len());
            assert(("west"@).len() != ("northeast"@).len());
            assert(("west"@)[0] != ("east"@)[0]);
            assert(("west"@).len() != ("southeast"@).len());
            assert(("west"@).len() != ("south"@).len());
            assert(("west"@).len() != ("southwest"@).len());
        },
        HorizontalDirection::Northwest => {
            assert(("northwest"@).len() != ("vertical"@).len());
            assert(("northwest"@).len() != ("north"@).len());
            assert(("northwest"@)[5] != ("northeast"@)[5]);
            assert(("northwest"@).len() != ("east"@).len());
            assert(("northwest"@)[0] != ("southeast"@)[0]);
            assert(("northwest"@).len() != ("south"@).len());
            assert(("northwest"@)[0] != ("southwest"@)[0]);
            assert(("northwest"@).len() != ("west"@).len());
        },
    }
}

/// The name of a direction that moves up or down, written as its vertical name, then (unless it is straight
/// up or down) a space and its bearing's name: it parses back to that direction.
proof fn lemma_moving_name(h: HorizontalDirection, v: VerticalDirection, name: Seq<char>)
    requires
        v != VerticalDirection::Level,
        name == (if h == HorizontalDirection::Vertical { v.spec_name()@ } else { v.spec_name()@ + " "@ + h.spec_name()@ }),
    ensures
        parsed_direction(name) == Ok::<(HorizontalDirection, VerticalDirection), &'static str>((h, v)),
{
    reveal_strlit("Up");
    reveal_strlit("Down");
    reveal_strlit(" ");
    reveal_strlit("up");
    reveal_strlit("down");
    reveal_strlit("level");
    reveal_strlit("vertical");
    reveal_strlit("north");
    reveal_strlit("northeast");
    reveal_strlit("east");
    reveal_strlit("southeast");
    reveal_strlit("south");
    reveal_strlit("southwest");
    reveal_strlit("west");
    reveal_strlit("northwest");
    lemma_bearing_name(h);
    let vn = v.spec_name()@;
    let hn = h.spec_name()@;
    assert(vn.len() == 2 || vn.len() == 4);
    assert(!name.contains('&')) by {
        if name.contains('&') {
            let i = choose|i: int| 0 <= i < name.len() && name[i] == '&';
            if i < vn.len() {
                assert(vn[i] == '&');
            } else if i > vn.len() {
                assert(hn[i - vn.len() - 1] == '&');
            }
        }
    }
    name.index_of_first_ensures('&');
    assert(after_amp(name) is None);
    assert(trim_start(name, true) == name);
    assert(trim_end(name, true) == name);
    let lower = ascii_lower_seq(name);
    assert(lower[0] == 'u' || lower[0] == 'd');
    assert(horizontal_named(name) is None);
    if h == HorizontalDirection::Vertical {
        assert(lower =~= (if v == VerticalDirection::Up { "up"@ } else { "down"@ }));
    } else {
        assert(lower.len() > 5);
        assert(vertical_named(name) is None);
        assert(name[vn.len() as int] == ' ');
        name.index_of_first_ensures(' ');
        assert(name.index_of_first(' ') == Some(vn.len() as int)) by {
            let k = name.index_of_first(' ').unwrap();
            if k < vn.len() {
                assert(vn[k] == name[k]);
            }
        }
        assert(before_space(name) =~= vn);
        assert(name.subrange(vn.len() as int + 1, name.len() as int) =~= hn);
        assert(trim_start(vn, true) == vn);
        assert(trim_end(vn, true) == vn);
        assert(ascii_lower_seq(vn) =~= (if v == VerticalDirection::Up { "up"@ } else { "down"@ }));
    }
}

/// Display and parsing are interchangeable: the name of every direction parses back to that direction.
pub proof fn lemma_name_parses(d: Direction)
    ensures
        parsed_direction(d.spec_name()@)
            == Ok::<(HorizontalDirection, VerticalDirection), &'static str>((d.spec_horizontal(), d.spec_vertical())),
{
    let h = d.spec_horizontal();
    let v = d.spec_vertical();
    lemma_bearing_name(h);
    if v == VerticalDirection::Level {
        let n = h.spec_name()@;
        n.index_of_first_ensures('&');
        assert(after_amp(n) is None);
    } else {
    reveal_strlit("Up");
    reveal_strlit("Down");
    reveal_strlit(" ");
    reveal_strlit("North");
    reveal_strlit("Northeast");
    reveal_strlit("East");
    reveal_strlit("Southeast");
    reveal_strlit("South");
    reveal_strlit("Southwest");
    reveal_strlit("West");
    reveal_strlit("Northwest");
    reveal_strlit("Up North");
    reveal_strlit("Up Northeast");
    reveal_strlit("Up East");
    reveal_strlit("Up Southeast");
    reveal_strlit("Up South");
    reveal_strlit("Up Southwest");
    reveal_strlit("Up West");
    reveal_strlit("Up Northwest");
    reveal_strlit("Down North");
    reveal_strlit("Down Northeast");
    reveal_strlit("Down East");
    reveal_strlit("Down Southeast");
    reveal_strlit("Down South");
    reveal_strlit("Down Southwest");
    reveal_strlit("Down West");
    reveal_strlit("Down Northwest");
        let name = if h == HorizontalDirection::Vertical {
            v.spec_name()@
        } else {
            v.spec_name()@ + " "@ + h.spec_name()@
        };
        assert(d.spec_name()@ =~= name);
        lemma_moving_name(h, v, name);
    }
}

/// The lower-case name of every direction is its name with each ASCII capital made small.
pub proof fn lemma_name_lowercase(d: Direction)
    ensures
        ascii_lower_seq(d.spec_name()@) == d.spec_name_lowercase()@,
{
    lemma_bearing_name(d.spec_horizontal());
    reveal_strlit("Up");
    reveal_strlit("Down");
    reveal_strlit("Up North");
    reveal_strlit("Up Northeast");
    reveal_strlit("Up East");
    reveal_strlit("Up Southeast");
    reveal_strlit("Up South");
    reveal_strlit("Up Southwest");
    reveal_strlit("Up West");
    reveal_strlit("Up Northwest");
    reveal_strlit("Down North");
    reveal_strlit("Down Northeast");
    reveal_strlit("Down East");
    reveal_strlit("Down Southeast");
    reveal_strlit("Down South");
    reveal_strlit("Down Southwest");
    reveal_strlit("Down West");
    reveal_strlit("Down Northwest");
    reveal_strlit("up");
    reveal_strlit("down");
    reveal_strlit("up north");
    reveal_strlit("up northeast");
    reveal_strlit("up east");
    reveal_strlit("up southeast");
    reveal_strlit("up south");
    reveal_strlit("up southwest");
    reveal_strlit("up west");
    reveal_strlit("up northwest");
    reveal_strlit("down north");
    reveal_strlit("down northeast");
    reveal_strlit("down east");
    reveal_strlit("down southeast");
    reveal_strlit("down south");
    reveal_strlit("down southwest");
    reveal_strlit("down west");
    reveal_strlit("down northwest");
    assert(ascii_lower_seq(d.spec_name()@) =~= d.spec_name_lowercase()@);
}

} // verus!
