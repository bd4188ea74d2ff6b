//! Text as a sequence of characters: white space, trimming, the place of a
//! character or of a text in a text, lines, and numbers in decimal.

use vstd::prelude::*;

verus! {

/// The characters that count as white space: the code points that Unicode
/// marks `White_Space`.
pub open spec fn is_whitespace(c: char) -> bool {
    let n = c as u32;
    ||| 0x09 <= n <= 0x0D
    ||| n == 0x20
    ||| n == 0x85
    ||| n == 0xA0
    ||| n == 0x1680
    ||| 0x2000 <= n <= 0x200A
    ||| n == 0x2028
    ||| n == 0x2029
    ||| n == 0x202F
    ||| n == 0x205F
    ||| n == 0x3000
}

/// The strings of `v` as text.
pub open spec fn lines_of(v: Seq<String>) -> Seq<Seq<char>> {
    Seq::new(v.len(), |i: int| v[i]@)
}

/// A string as text, where there is one.
pub open spec fn option_text(s: Option<String>) -> Option<Seq<char>> {
    match s {
        Some(text) => Some(text@),
        None => None,
    }
}

/// What to strip from the ends of a text.
#[derive(Debug, Clone, Copy, PartialEq, Eq, Structural)]
pub enum Strip {
    /// Any white space.
    WhiteSpace,
    /// This character.
    Char(char),
}

impl Strip {
    /// Whether `c` is to be stripped.
    pub open spec fn strips(self, c: char) -> bool {
        match self {
            Strip::WhiteSpace => is_whitespace(c),
            Strip::Char(x) => c == x,
        }
    }

    /// Tells whether `c` is to be stripped.
    pub fn test(self, c: char) -> (b: bool)
        ensures
            b == self.strips(c),
    {
        match self {
            Strip::WhiteSpace => char_is_whitespace(c),
            Strip::Char(x) => c == x,
        }
    }
}

/// `s` without the characters to strip that it begins with.
pub open spec fn trim_start_of(s: Seq<char>, strip: Strip) -> Seq<char>
    decreases s.len(),
{
    if s.len() > 0 && strip.strips(s.first()) {
        trim_start_of(s.drop_first(), strip)
    } else {
        s
    }
}

/// `s` without the characters to strip that it ends with.
pub open spec fn trim_end_of(s: Seq<char>, strip: Strip) -> Seq<char>
    decreases s.len(),
{
    if s.len() > 0 && strip.strips(s.last()) {
        trim_end_of(s.drop_last(), strip)
    } else {
        s
    }
}

/// `s` without the characters to strip that stand at its ends.
pub open spec fn trimmed_of(s: Seq<char>, strip: Strip) -> Seq<char> {
    trim_end_of(trim_start_of(s, strip), strip)
}

/// `s` without the white space around it.
pub open spec fn trimmed(s: Seq<char>) -> Seq<char> {
    trimmed_of(s, Strip::WhiteSpace)
}

/// `s` without `prefix` at its front, as often as it stands there.
pub open spec fn strip_prefixes(s: Seq<char>, prefix: Seq<char>) -> Seq<char>
    decreases s.len(),
{
    if prefix.len() > 0 && prefix.is_prefix_of(s) {
        strip_prefixes(s.skip(prefix.len() as int), prefix)
    } else {
        s
    }
}

/// Where `pattern` first stands in `s`, if it stands anywhere in it.
pub open spec fn find(s: Seq<char>, pattern: Seq<char>) -> Option<int>
    decreases s.len(),
{
    if pattern.is_prefix_of(s) {
        Some(0)
    } else if s.len() == 0 {
        None
    } else {
        match find(s.drop_first(), pattern) {
            Some(i) => Some(i + 1),
            None => None,
        }
    }
}

/// The first line of `s`: what stands before the first line feed, less a
/// carriage return right before that line feed.
pub open spec fn first_line(s: Seq<char>) -> Seq<char> {
    let p = position(s, '\n');
    if 0 < p < s.len() && s[p - 1] == '\r' {
        s.take(p - 1)
    } else {
        s.take(p)
    }
}

/// The first line of `s` that begins with `prefix`, if there is one. Lines
/// end with a line feed, or with the text.
pub open spec fn line_starting_with(s: Seq<char>, prefix: Seq<char>) -> Option<Seq<char>>
    decreases s.len(),
{
    let p = position(s, '\n');
    if s.len() == 0 {
        None
    } else if prefix.is_prefix_of(first_line(s)) {
        Some(first_line(s))
    } else if 0 <= p < s.len() {
        line_starting_with(s.skip(p + 1), prefix)
    } else {
        None
    }
}

/// The second of the fields into which `separator` parts `s`: what stands
/// between its first and its second occurrence, or after the first where
/// there is no second. Empty where `s` has but one field.
pub open spec fn second_field(s: Seq<char>, separator: char) -> Seq<char> {
    let p = position(s, separator);
    if p < s.len() {
        let rest = s.skip(p + 1);
        rest.take(position(rest, separator))
    } else {
        Seq::empty()
    }
}

/// Where `c` first stands in `s`; the length of `s` where it does not occur.
pub open spec fn position<A>(s: Seq<A>, c: A) -> int
    decreases s.len(),
{
    if s.len() == 0 {
        0
    } else if s.first() == c {
        0
    } else {
        1 + position(s.drop_first(), c)
    }
}

/// The character that stands for the digit `d`.
pub open spec fn digit(d: nat) -> char
    recommends
        d < 10,
{
    (48 + d) as char
}

/// `n` in decimal digits, without leading zeros.
pub open spec fn decimal(n: nat) -> Seq<char>
    decreases n,
{
    if n < 10 {
        seq![digit(n)]
    } else {
        decimal(n / 10).push(digit(n % 10))
    }
}

/// `trim_start_of` drops exactly the longest run of characters to strip at
/// the front.
pub proof fn lemma_trim_start(s: Seq<char>, strip: Strip, a: int)
    requires
        0 <= a <= s.len(),
        forall|k: int| 0 <= k < a ==> strip.strips(#[trigger] s[k]),
        a < s.len() ==> !strip.strips(s[a]),
    ensures
        trim_start_of(s, strip) == s.skip(a),
    decreases a,
{
    if a > 0 {
        lemma_trim_start(s.drop_first(), strip, a - 1);
    }
}

/// `trim_end_of` drops exactly the longest run of characters to strip at
/// the back.
pub proof fn lemma_trim_end(s: Seq<char>, strip: Strip, b: int)
    requires
        0 <= b <= s.len(),
        forall|k: int| b <= k < s.len() ==> strip.strips(#[trigger] s[k]),
        0 < b ==> !strip.strips(s[b - 1]),
    ensures
        trim_end_of(s, strip) == s.take(b),
    decreases s.len() - b,
{
    if b < s.len() {
        lemma_trim_end(s.drop_last(), strip, b);
    }
}

/// What `find` gives is a place where the pattern stands, and it stands at
/// no place before it; where `find` gives none, it stands nowhere.
pub proof fn lemma_find(s: Seq<char>, pattern: Seq<char>)
    ensures
        match find(s, pattern) {
            Some(i) => 0 <= i <= s.len() && pattern.is_prefix_of(s.skip(i)) && forall|k: int|
                0 <= k < i ==> !pattern.is_prefix_of(#[trigger] s.skip(k)),
            None => forall|k: int|
                0 <= k <= s.len() ==> !pattern.is_prefix_of(#[trigger] s.skip(k)),
        },
    decreases s.len(),
{
    if !pattern.is_prefix_of(s) && s.len() > 0 {
        let rest = s.drop_first();
        lemma_find(rest, pattern);
        assert(forall|k: int| 1 <= k <= s.len() ==> #[trigger] s.skip(k) == rest.skip(k - 1));
    }
}

/// A place where the pattern stands, with none before it, is the one that
/// `find` gives.
pub proof fn lemma_find_is(s: Seq<char>, pattern: Seq<char>, i: int)
    requires
        0 <= i <= s.len(),
        pattern.is_prefix_of(s.skip(i)),
        forall|k: int| 0 <= k < i ==> !pattern.is_prefix_of(#[trigger] s.skip(k)),
    ensures
        find(s, pattern) == Some(i),
{
    lemma_find(s, pattern);
}

/// Where the pattern stands at no place, `find` gives none.
pub proof fn lemma_find_none(s: Seq<char>, pattern: Seq<char>)
    requires
        forall|k: int| 0 <= k <= s.len() ==> !pattern.is_prefix_of(#[trigger] s.skip(k)),
    ensures
        find(s, pattern) is None,
{
    lemma_find(s, pattern);
}

/// Whether `s` neither begins nor ends with white space.
pub open spec fn is_bare(s: Seq<char>) -> bool {
    s.len() == 0 || (!is_whitespace(s.first()) && !is_whitespace(s.last()))
}

/// Text without white space around it stays as it is.
pub proof fn lemma_trimmed_of_bare(s: Seq<char>)
    requires
        is_bare(s),
    ensures
        trimmed(s) == s,
{
}

/// What is left of a text has no white space around it, and is left as it
/// is by a second trimming.
pub proof fn lemma_trimmed_is_bare(s: Seq<char>)
    ensures
        is_bare(trimmed(s)),
        trimmed(trimmed(s)) == trimmed(s),
        trimmed(s).len() <= s.len(),
{
    let strip = Strip::WhiteSpace;
    lemma_trim_start_shape(s, strip);
    lemma_trim_end_shape(trim_start_of(s, strip), strip);
}

/// What `trim_start_of` leaves does not begin with a character to strip,
/// and is an end of the text.
proof fn lemma_trim_start_shape(s: Seq<char>, strip: Strip)
    ensures
        trim_start_of(s, strip).len() <= s.len(),
        trim_start_of(s, strip) == s.skip(s.len() - trim_start_of(s, strip).len()),
        trim_start_of(s, strip).len() > 0 ==> !strip.strips(trim_start_of(s, strip).first()),
    decreases s.len(),
{
    if s.len() > 0 && strip.strips(s.first()) {
        lemma_trim_start_shape(s.drop_first(), strip);
    }
}

/// What `trim_end_of` leaves does not end with a character to strip, and is
/// a beginning of the text.
proof fn lemma_trim_end_shape(s: Seq<char>, strip: Strip)
    ensures
        trim_end_of(s, strip).len() <= s.len(),
        trim_end_of(s, strip) == s.take(trim_end_of(s, strip).len() as int),
        trim_end_of(s, strip).len() > 0 ==> !strip.strips(trim_end_of(s, strip).last()),
    decreases s.len(),
{
    if s.len() > 0 && strip.strips(s.last()) {
        lemma_trim_end_shape(s.drop_last(), strip);
    }
}

/// What `position` gives is the place of the first `c`, and nothing before it
/// is a `c`.
pub proof fn lemma_position<A>(s: Seq<A>, c: A)
    ensures
        0 <= position(s, c) <= s.len(),
        position(s, c) < s.len() ==> s[position(s, c)] == c,
        forall|k: int| 0 <= k < position(s, c) ==> #[trigger] s[k] != c,
        position(s, c) < s.len() <==> s.contains(c),
    decreases s.len(),
{
    if s.len() > 0 && s.first() != c {
        let rest = s.drop_first();
        lemma_position(rest, c);
        assert forall|k: int| 0 <= k < position(rest, c) + 1 implies #[trigger] s[k] != c by {
            if k > 0 {
                assert(rest[k - 1] == s[k]);
            }
        }
    }
}

/// A place that holds `c` with no `c` before it is the one `position` gives;
/// where no place holds `c`, `position` gives the length.
pub proof fn lemma_position_is<A>(s: Seq<A>, c: A, p: int)
    requires
        0 <= p <= s.len(),
        forall|k: int| 0 <= k < p ==> #[trigger] s[k] != c,
        p < s.len() ==> s[p] == c,
    ensures
        position(s, c) == p,
{
    lemma_position(s, c);
}

/// Tells whether `c` is white space.
pub fn char_is_whitespace(c: char) -> (b: bool)
    ensures
        b == is_whitespace(c),
{
    let n: u32 = c as u32;
    (0x09 <= n && n <= 0x0D) || n == 0x20 || n == 0x85 || n == 0xA0 || n == 0x1680 || (0x2000 <= n
        && n <= 0x200A) || n == 0x2028 || n == 0x2029 || n == 0x202F || n == 0x205F || n == 0x3000
}

/// The characters of `s`, in order.
pub fn to_chars(s: &str) -> (v: Vec<char>)
    ensures
        v@ == s@,
{
    let mut v: Vec<char> = Vec::new();
    for c in it: s.chars()
        invariant
            v@ == it.seq().take(it.index()),
            it.seq() == s@,
    {
        v.push(c);
    }
    v
}

/// The bounds of `chars[from..to]` without the characters to strip that
/// stand at its ends.
pub fn trim_bounds(chars: &Vec<char>, from: usize, to: usize, strip: Strip) -> (r: (usize, usize))
    requires
        from <= to <= chars.len(),
    ensures
        from <= r.0 <= r.1 <= to,
        chars@.subrange(r.0 as int, r.1 as int) == trimmed_of(
            chars@.subrange(from as int, to as int),
            strip,
        ),
{
    let ghost s = chars@.subrange(from as int, to as int);
    let mut a: usize = from;
    while a < to && strip.test(chars[a])
        invariant
            from <= a <= to <= chars.len(),
            forall|k: int| from <= k < a ==> strip.strips(#[trigger] chars@[k]),
        decreases to - a,
    {
        a += 1;
    }
    let mut b: usize = to;
    while b > a && strip.test(chars[b - 1])
        invariant
            from <= a <= b <= to <= chars.len(),
            forall|k: int| b <= k < to ==> strip.strips(#[trigger] chars@[k]),
        decreases b,
    {
        b -= 1;
    }
    proof {
        lemma_trim_start(s, strip, a - from);
        let t = s.skip(a - from);
        lemma_trim_end(t, strip, b - a);
    }
    (a, b)
}

/// The place of the first `c` in `chars[from..to]`, counted from `from`.
pub fn find_char(chars: &Vec<char>, from: usize, to: usize, c: char) -> (p: usize)
    requires
        from <= to <= chars.len(),
    ensures
        p == position(chars@.subrange(from as int, to as int), c),
        p <= to - from,
{
    let ghost s = chars@.subrange(from as int, to as int);
    let mut i: usize = from;
    while i < to && chars[i] != c
        invariant
            from <= i <= to <= chars.len(),
            forall|k: int| from <= k < i ==> #[trigger] chars@[k] != c,
        decreases to - i,
    {
        i += 1;
    }
    proof {
        lemma_position_is(s, c, i - from);
    }
    i - from
}

/// Tells whether `chars[from..to]` begins with `pattern`.
pub fn starts_with(chars: &Vec<char>, from: usize, to: usize, pattern: &Vec<char>) -> (b: bool)
    requires
        from <= to <= chars.len(),
    ensures
        b == pattern@.is_prefix_of(chars@.subrange(from as int, to as int)),
{
    let ghost s = chars@.subrange(from as int, to as int);
    let n = pattern.len();
    if n > to - from {
        return false;
    }
    let mut i: usize = 0;
    while i < n
        invariant
            i <= n == pattern.len(),
            from + n <= to <= chars.len(),
            s == chars@.subrange(from as int, to as int),
            forall|k: int| 0 <= k < i ==> pattern@[k] == s[k],
        decreases n - i,
    {
        if pattern[i] != chars[from + i] {
            return false;
        }
        i += 1;
    }
    true
}

/// The place of the first `pattern` in `chars[from..to]`, counted from
/// `from`.
pub fn find_text(chars: &Vec<char>, from: usize, to: usize, pattern: &Vec<char>) -> (r: Option<
    usize,
>)
    requires
        from <= to <= chars.len(),
    ensures
        match r {
            Some(i) => find(chars@.subrange(from as int, to as int), pattern@) == Some(i as int)
                && from + i + pattern.len() <= to,
            None => find(chars@.subrange(from as int, to as int), pattern@) is None,
        },
{
    let ghost s = chars@.subrange(from as int, to as int);
    let mut i: usize = from;
    while i < to
        invariant
            from <= i <= to <= chars.len(),
            s == chars@.subrange(from as int, to as int),
            forall|k: int| 0 <= k < i - from ==> !pattern@.is_prefix_of(#[trigger] s.skip(k)),
        decreases to - i,
    {
        if starts_with(chars, i, to, pattern) {
            proof {
                lemma_find_is(s, pattern@, i - from);
            }
            return Some(i - from);
        }
        i += 1;
    }
    if starts_with(chars, to, to, pattern) {
        proof {
            lemma_find_is(s, pattern@, to - from);
        }
        Some(to - from)
    } else {
        proof {
            lemma_find_none(s, pattern@);
        }
        None
    }
}

/// Where `chars[from..to]` begins once `prefix` has been taken from its
/// front as often as it stands there.
pub fn skip_prefixes(chars: &Vec<char>, from: usize, to: usize, prefix: &Vec<char>) -> (a: usize)
    requires
        from <= to <= chars.len(),
    ensures
        from <= a <= to,
        chars@.subrange(a as int, to as int) == strip_prefixes(
            chars@.subrange(from as int, to as int),
            prefix@,
        ),
{
    let mut a: usize = from;
    if prefix.len() == 0 {
        return a;
    }
    while starts_with(chars, a, to, prefix)
        invariant
            from <= a <= to <= chars.len(),
            prefix.len() > 0,
            strip_prefixes(chars@.subrange(a as int, to as int), prefix@) == strip_prefixes(
                chars@.subrange(from as int, to as int),
                prefix@,
            ),
        decreases to - a,
    {
        assert(chars@.subrange(a as int, to as int).skip(prefix.len() as int) =~= chars@.subrange(
            a + prefix.len(),
            to as int,
        ));
        a += prefix.len();
    }
    a
}

/// The bounds of the second of the fields into which `separator` parts
/// `chars[from..to]`.
pub fn second_field_bounds(chars: &Vec<char>, from: usize, to: usize, separator: char) -> (r: (
    usize,
    usize,
))
    requires
        from <= to <= chars.len(),
    ensures
        from <= r.0 <= r.1 <= to,
        chars@.subrange(r.0 as int, r.1 as int) == second_field(
            chars@.subrange(from as int, to as int),
            separator,
        ),
{
    let ghost s = chars@.subrange(from as int, to as int);
    let p = find_char(chars, from, to, separator);
    if p < to - from {
        let start = from + p + 1;
        let q = find_char(chars, start, to, separator);
        proof {
            assert(s.skip(p + 1) =~= chars@.subrange(start as int, to as int));
        }
        (start, start + q)
    } else {
        (from, from)
    }
}

/// The bounds of the first line of `chars` that begins with `prefix`.
pub fn find_line(chars: &Vec<char>, prefix: &Vec<char>) -> (r: Option<(usize, usize)>)
    ensures
        match r {
            Some((a, b)) => a <= b <= chars.len() && line_starting_with(chars@, prefix@) == Some(
                chars@.subrange(a as int, b as int),
            ),
            None => line_starting_with(chars@, prefix@) is None,
        },
{
    let n = chars.len();
    let mut start: usize = 0;
    assert(chars@.skip(0) =~= chars@);
    while start < n
        invariant
            start <= n == chars.len(),
            line_starting_with(chars@, prefix@) == line_starting_with(
                chars@.skip(start as int),
                prefix@,
            ),
        decreases n - start,
    {
        let ghost s = chars@.skip(start as int);
        let p = find_char(chars, start, n, '\n');
        let end = start + p;
        proof {
            lemma_position(s, '\n');
        }
        let line_end = if p > 0 && end < n && chars[end - 1] == '\r' {
            end - 1
        } else {
            end
        };
        if starts_with(chars, start, line_end, prefix) {
            return Some((start, line_end));
        }
        if end < n {
            proof {
                assert(s.skip(p + 1) =~= chars@.skip(end + 1));
            }
            start = end + 1;
        } else {
            return None;
        }
    }
    None
}

/// Tells whether `a` and `b` hold the same characters.
pub fn same_text(a: &str, b: &str) -> (same: bool)
    ensures
        same == (a@ == b@),
{
    let x = to_chars(a);
    let y = to_chars(b);
    if x.len() != y.len() {
        return false;
    }
    let mut i: usize = 0;
    while i < x.len()
        invariant
            i <= x.len() == y.len(),
            x@ == a@,
            y@ == b@,
            forall|k: int| 0 <= k < i ==> x@[k] == y@[k],
        decreases x.len() - i,
    {
        if x[i] != y[i] {
            return false;
        }
        i += 1;
    }
    assert(x@ =~= y@);
    true
}

/// The digit `d`, written as text.
fn digit_text(d: usize) -> (r: &'static str)
    requires
        d < 10,
    ensures
        r@ == seq![digit(d as nat)],
{
    proof {
        reveal_strlit("0");
        reveal_strlit("1");
        reveal_strlit("2");
        reveal_strlit("3");
        reveal_strlit("4");
        reveal_strlit("5");
        reveal_strlit("6");
        reveal_strlit("7");
        reveal_strlit("8");
        reveal_strlit("9");
    }
    match d {
        0 => "0",
        1 => "1",
        2 => "2",
        3 => "3",
        4 => "4",
        5 => "5",
        6 => "6",
        7 => "7",
        8 => "8",
        _ => "9",
    }
}

/// `n` in decimal digits.
pub fn to_decimal(n: usize) -> (s: String)
    ensures
        s@ == decimal(n as nat),
    decreases n,
{
    if n < 10 {
        digit_text(n).to_owned()
    } else {
        let mut s = to_decimal(n / 10);
        s.append(digit_text(n % 10));
        s
    }
}

/// `s` without the white space around it.
pub fn trim(s: &str) -> (r: &str)
    ensures
        r@ == trimmed(s@),
{
    let chars = to_chars(s);
    let (a, b) = trim_bounds(&chars, 0, chars.len(), Strip::WhiteSpace);
    assert(chars@.subrange(0, chars.len() as int) =~= s@);
    s.substring_char(a, b)
}

} // verus!
