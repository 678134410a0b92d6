use vstd::prelude::*;

verus! {

/// The way a goal must be crossed to count.
#[derive(Clone, Copy, Debug, PartialEq, Eq, Structural)]
pub enum GoalDirection {
    XPlus,
    XMinus,
    YPlus,
    YMinus,
}

impl GoalDirection {
    /// The unit vector of the direction, on the ground plane.
    pub open spec fn vector(self) -> (int, int) {
        match self {
            GoalDirection::XPlus => (1, 0),
            GoalDirection::XMinus => (-1, 0),
            GoalDirection::YPlus => (0, 1),
            GoalDirection::YMinus => (0, -1),
        }
    }

    /// See `vector`.
    pub fn as_vector(self) -> (r: (i32, i32))
        ensures
            (r.0 as int, r.1 as int) == self.vector(),
    {
        match self {
            GoalDirection::XPlus => (1, 0),
            GoalDirection::XMinus => (-1, 0),
            GoalDirection::YPlus => (0, 1),
            GoalDirection::YMinus => (0, -1),
        }
    }
}

/// What a named scene node stands for in a level.
#[derive(Clone, Copy, Debug, PartialEq, Eq, Structural)]
pub enum LevelObjectType {
    /// Solid level geometry.
    StaticGeometry,
    /// The volume whose exit, once entered, loses the level.
    OutOfBounds,
    /// Where the player is placed.
    SpawnPoint,
    /// A sensor that wins the level when crossed the right way.
    Goal(GoalDirection),
    /// A sensor that awards `reward` points once.
    PointPickup { reward: i32 },
}

pub open spec fn has_prefix(s: Seq<char>, p: Seq<char>) -> bool {
    p.len() <= s.len() && s.subrange(0, p.len() as int) == p
}

pub open spec fn object_word() -> Seq<char> {
    seq!['O', 'b', 'j', 'e', 'c', 't']
}

pub open spec fn bounds_word() -> Seq<char> {
    seq!['B', 'o', 'u', 'n', 'd', 's']
}

pub open spec fn spawn_word() -> Seq<char> {
    seq!['S', 'p', 'a', 'w', 'n']
}

pub open spec fn goal_word() -> Seq<char> {
    seq!['G', 'o', 'a', 'l', '_']
}

pub open spec fn point_word() -> Seq<char> {
    seq!['P', 'o', 'i', 'n', 't', '_']
}

/// The direction named by the first two characters of `t`.
pub open spec fn goal_token(t: Seq<char>) -> Option<GoalDirection> {
    if t.len() < 2 {
        None
    } else if t[0] == 'X' && t[1] == '+' {
        Some(GoalDirection::XPlus)
    } else if t[0] == 'X' && t[1] == '-' {
        Some(GoalDirection::XMinus)
    } else if t[0] == 'Y' && t[1] == '+' {
        Some(GoalDirection::YPlus)
    } else if t[0] == 'Y' && t[1] == '-' {
        Some(GoalDirection::YMinus)
    } else {
        None
    }
}

/// How many characters of `s` come before its first `.` (all of them if none).
pub open spec fn dot_index(s: Seq<char>) -> int
    decreases s.len(),
{
    if s.len() == 0 {
        0
    } else if s[0] == '.' {
        0
    } else {
        1 + dot_index(s.subrange(1, s.len() as int))
    }
}

pub open spec fn is_digit(c: char) -> bool {
    '0' <= c <= '9'
}

pub open spec fn all_digits(d: Seq<char>) -> bool {
    forall|i: int| 0 <= i < d.len() ==> is_digit(#[trigger] d[i])
}

/// The value of a run of decimal digits.
pub open spec fn digits_value(d: Seq<char>) -> int
    decreases d.len(),
{
    if d.len() == 0 {
        0
    } else {
        digits_value(d.drop_last()) * 10 + (d.last() as int - '0' as int)
    }
}

/// A decimal `i32` in the form Rust's integer parsing takes: an optional `+`
/// or `-`, then one or more digits, with a value that fits.
pub open spec fn parse_i32_of(t: Seq<char>) -> Option<i32> {
    let neg = t.len() > 0 && t[0] == '-';
    let signed = t.len() > 0 && (t[0] == '-' || t[0] == '+');
    let d = if signed { t.subrange(1, t.len() as int) } else { t };
    if d.len() == 0 || !all_digits(d) {
        None
    } else {
        let v = if neg { -digits_value(d) } else { digits_value(d) };
        if i32::MIN <= v <= i32::MAX { Some(v as i32) } else { None }
    }
}

/// What the naming convention makes of a scene node's name.
pub open spec fn classify_of(s: Seq<char>) -> Option<LevelObjectType> {
    if has_prefix(s, object_word()) {
        Some(LevelObjectType::StaticGeometry)
    } else if s == bounds_word() {
        Some(LevelObjectType::OutOfBounds)
    } else if s == spawn_word() {
        Some(LevelObjectType::SpawnPoint)
    } else if has_prefix(s, goal_word()) {
        match goal_token(s.subrange(5, s.len() as int)) {
            Some(d) => Some(LevelObjectType::Goal(d)),
            None => None,
        }
    } else if has_prefix(s, point_word()) {
        let rest = s.subrange(6, s.len() as int);
        match parse_i32_of(rest.subrange(0, dot_index(rest))) {
            Some(reward) => Some(LevelObjectType::PointPickup { reward }),
            None => None,
        }
    } else {
        None
    }
}

} // verus!

verus! {

pub proof fn lemma_digits_value_nonneg(d: Seq<char>)
    requires
        all_digits(d),
    ensures
        digits_value(d) >= 0,
    decreases d.len(),
{
    if d.len() > 0 {
        assert(all_digits(d.drop_last()));
        lemma_digits_value_nonneg(d.drop_last());
        assert(is_digit(d[d.len() - 1]));
    }
}

/// A prefix of a run of digits is worth no more than the whole run.
pub proof fn lemma_digits_value_prefix(d: Seq<char>, j: int)
    requires
        all_digits(d),
        0 <= j <= d.len(),
    ensures
        digits_value(d.subrange(0, j)) <= digits_value(d),
    decreases d.len(),
{
    if j == d.len() {
        assert(d.subrange(0, j) =~= d);
    } else {
        let e = d.drop_last();
        assert(all_digits(e));
        lemma_digits_value_prefix(e, j);
        assert(e.subrange(0, j) =~= d.subrange(0, j));
        lemma_digits_value_nonneg(e);
        assert(is_digit(d[d.len() - 1]));
    }
}

/// The characters of `s`, in order.
fn chars_of(s: &str) -> (v: Vec<char>)
    ensures
        v@ == s@,
{
    let n = s.unicode_len();
    let mut v: Vec<char> = Vec::new();
    let mut i: usize = 0;
    while i < n
        invariant
            n == s@.len(),
            0 <= i <= n,
            v@ == s@.subrange(0, i as int),
        decreases n - i,
    {
        v.push(s.get_char(i));
        i += 1;
        assert(v@ =~= s@.subrange(0, i as int));
    }
    assert(s@.subrange(0, n as int) =~= s@);
    v
}

fn starts_with(s: &Vec<char>, p: &Vec<char>) -> (r: bool)
    ensures
        r == has_prefix(s@, p@),
{
    if p.len() > s.len() {
        return false;
    }
    let mut i: usize = 0;
    while i < p.len()
        invariant
            p@.len() <= s@.len(),
            0 <= i <= p@.len(),
            forall|k: int| 0 <= k < i ==> s@[k] == p@[k],
        decreases p@.len() - i,
    {
        if s[i] != p[i] {
            assert(s@.subrange(0, p@.len() as int)[i as int] != p@[i as int]);
            return false;
        }
        i += 1;
    }
    assert(s@.subrange(0, p@.len() as int) =~= p@);
    true
}

fn equals(s: &Vec<char>, p: &Vec<char>) -> (r: bool)
    ensures
        r == (s@ == p@),
{
    let r = s.len() == p.len() && starts_with(s, p);
    proof {
        if s@.len() == p@.len() {
            assert(s@ =~= s@.subrange(0, p@.len() as int));
        }
    }
    r
}

/// See `dot_index`; counted from `start`.
fn dot_index_from(s: &Vec<char>, start: usize) -> (r: usize)
    requires
        start <= s@.len(),
    ensures
        start <= r <= s@.len(),
        r - start == dot_index(s@.subrange(start as int, s@.len() as int)),
{
    let mut i: usize = start;
    while i < s.len() && s[i] != '.'
        invariant
            start <= i <= s@.len(),
            dot_index(s@.subrange(start as int, s@.len() as int)) == (i - start) + dot_index(
                s@.subrange(i as int, s@.len() as int),
            ),
        decreases s@.len() - i,
    {
        let ghost rest = s@.subrange(i as int, s@.len() as int);
        assert(rest[0] == s@[i as int]);
        assert(rest.subrange(1, rest.len() as int) =~= s@.subrange(i + 1, s@.len() as int));
        i += 1;
    }
    if i < s.len() {
        assert(s@.subrange(i as int, s@.len() as int)[0] == '.');
    }
    i
}

/// Parses the characters `s[from..to]` as a decimal `i32`.
fn parse_i32(s: &Vec<char>, from: usize, to: usize) -> (r: Option<i32>)
    requires
        from <= to <= s@.len(),
    ensures
        r == parse_i32_of(s@.subrange(from as int, to as int)),
{
    let ghost t = s@.subrange(from as int, to as int);
    assert(t.len() > 0 ==> t[0] == s@[from as int]);
    let neg = from < to && s[from] == '-';
    let signed = from < to && (s[from] == '-' || s[from] == '+');
    let lo = if signed { from + 1 } else { from };
    let ghost d = s@.subrange(lo as int, to as int);
    assert(signed == (t.len() > 0 && (t[0] == '-' || t[0] == '+')));
    assert(neg == (t.len() > 0 && t[0] == '-'));
    assert(d =~= (if signed { t.subrange(1, t.len() as int) } else { t }));
    if lo == to {
        return None;
    }
    let mut i: usize = lo;
    while i < to
        invariant
            lo <= i <= to <= s@.len(),
            t == s@.subrange(from as int, to as int),
            d == (if signed { t.subrange(1, t.len() as int) } else { t }),
            signed == (t.len() > 0 && (t[0] == '-' || t[0] == '+')),
            neg == (t.len() > 0 && t[0] == '-'),
            d.len() > 0,
            d == s@.subrange(lo as int, to as int),
            forall|k: int| lo <= k < i ==> is_digit(#[trigger] s@[k]),
        decreases to - i,
    {
        if !('0' <= s[i] && s[i] <= '9') {
            assert(!is_digit(d[i - lo]));
            return None;
        }
        i += 1;
    }
    assert(all_digits(d)) by {
        assert forall|k: int| 0 <= k < d.len() implies is_digit(#[trigger] d[k]) by {
            assert(d[k] == s@[lo + k]);
        }
    }
    let mut acc: i64 = 0;
    let mut i: usize = lo;
    assert(s@.subrange(lo as int, lo as int) =~= Seq::<char>::empty());
    while i < to
        invariant
            lo <= i <= to <= s@.len(),
            t == s@.subrange(from as int, to as int),
            d == (if signed { t.subrange(1, t.len() as int) } else { t }),
            signed == (t.len() > 0 && (t[0] == '-' || t[0] == '+')),
            neg == (t.len() > 0 && t[0] == '-'),
            d.len() > 0,
            d == s@.subrange(lo as int, to as int),
            all_digits(d),
            0 <= acc <= 0x8000_0000,
            acc == digits_value(s@.subrange(lo as int, i as int)),
        decreases to - i,
    {
        assert(d[i - lo] == s@[i as int]);
        assert(is_digit(s@[i as int]));
        let digit = (s[i] as u32 - '0' as u32) as i64;
        assert(digit == s@[i as int] as int - '0' as int);
        let next = acc * 10 + digit;
        let ghost pre = s@.subrange(lo as int, i + 1);
        assert(pre.drop_last() =~= s@.subrange(lo as int, i as int));
        assert(pre.last() == s@[i as int]);
        if next > 0x8000_0000 {
            proof {
                assert(pre =~= d.subrange(0, i + 1 - lo));
                lemma_digits_value_prefix(d, i + 1 - lo);
            }
            return None;
        }
        acc = next;
        i += 1;
    }
    assert(s@.subrange(lo as int, to as int) == d);
    if neg {
        Some((-acc) as i32)
    } else if acc <= 0x7fff_ffff {
        Some(acc as i32)
    } else {
        None
    }
}

/// Reads a scene node's name by the naming convention: a name starting with
/// `Object` is solid geometry, `Bounds` the out-of-bounds volume, `Spawn` the
/// spawn point, `Goal_` followed by `X+`, `X-`, `Y+` or `Y-` a goal, and
/// `Point_` followed by a whole number (up to the first `.`) a pickup worth
/// that many points. Anything else, malformed suffixes included, is nothing.
pub fn classify(name: &str) -> (r: Option<LevelObjectType>)
    ensures
        r == classify_of(name@),
{
    let s = chars_of(name);
    let object = vec!['O', 'b', 'j', 'e', 'c', 't'];
    let bounds = vec!['B', 'o', 'u', 'n', 'd', 's'];
    let spawn = vec!['S', 'p', 'a', 'w', 'n'];
    let goal = vec!['G', 'o', 'a', 'l', '_'];
    let point = vec!['P', 'o', 'i', 'n', 't', '_'];
    assert(object@ =~= object_word());
    assert(bounds@ =~= bounds_word());
    assert(spawn@ =~= spawn_word());
    assert(goal@ =~= goal_word());
    assert(point@ =~= point_word());
    if starts_with(&s, &object) {
        Some(LevelObjectType::StaticGeometry)
    } else if equals(&s, &bounds) {
        Some(LevelObjectType::OutOfBounds)
    } else if equals(&s, &spawn) {
        Some(LevelObjectType::SpawnPoint)
    } else if starts_with(&s, &goal) {
        let ghost t = s@.subrange(5, s@.len() as int);
        if s.len() < 7 {
            return None;
        }
        assert(t[0] == s@[5] && t[1] == s@[6]);
        let (a, b) = (s[5], s[6]);
        let d = if a == 'X' && b == '+' {
            GoalDirection::XPlus
        } else if a == 'X' && b == '-' {
            GoalDirection::XMinus
        } else if a == 'Y' && b == '+' {
            GoalDirection::YPlus
        } else if a == 'Y' && b == '-' {
            GoalDirection::YMinus
        } else {
            return None;
        };
        Some(LevelObjectType::Goal(d))
    } else if starts_with(&s, &point) {
        let end = dot_index_from(&s, 6);
        let ghost rest = s@.subrange(6, s@.len() as int);
        assert(rest.subrange(0, dot_index(rest)) =~= s@.subrange(6, end as int));
        match parse_i32(&s, 6, end) {
            Some(reward) => Some(LevelObjectType::PointPickup { reward }),
            None => None,
        }
    } else {
        None
    }
}

} // verus!
