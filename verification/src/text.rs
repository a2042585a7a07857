//! Text on characters: trimming, splitting, joining, searching, numbers.
use vstd::prelude::*;

use crate::model::append_to;

verus! {

/// Whether a character has the Unicode property White_Space.
pub open spec fn white(c: char) -> bool {
    ||| '\u{9}' <= c <= '\u{d}'
    ||| c == ' '
    ||| c == '\u{85}'
    ||| c == '\u{a0}'
    ||| c == '\u{1680}'
    ||| '\u{2000}' <= c <= '\u{200a}'
    ||| c == '\u{2028}'
    ||| c == '\u{2029}'
    ||| c == '\u{202f}'
    ||| c == '\u{205f}'
    ||| c == '\u{3000}'
}

/// `char::is_whitespace` decides the property [`white`] of its argument.
pub assume_specification[ char::is_whitespace ](c: char) -> (b: bool)
    ensures
        b == white(c),
;

/// The lowercase of an ASCII character.
pub open spec fn ascii_lower(c: char) -> char {
    if 'A' <= c <= 'Z' {
        (c as int + 32) as char
    } else {
        c
    }
}

/// Whether a text is made of ASCII characters alone.
pub open spec fn is_ascii_text(s: Seq<char>) -> bool {
    forall|k: int| 0 <= k < s.len() ==> #[trigger] s[k] <= '\u{7f}'
}

/// The lowercase of a text, character by character, as for ASCII text.
pub open spec fn ascii_lowercase(s: Seq<char>) -> Seq<char> {
    Seq::new(s.len(), |k: int| ascii_lower(s[k]))
}

/// The Unicode lowercase of a text that is not ASCII alone.
pub uninterp spec fn unicode_lowercase(s: Seq<char>) -> Seq<char>;

/// The Unicode lowercase of a text.
pub open spec fn lowercase(s: Seq<char>) -> Seq<char> {
    if is_ascii_text(s) {
        ascii_lowercase(s)
    } else {
        unicode_lowercase(s)
    }
}

/// `str::to_lowercase` gives the lowercase text: of ASCII text letter by
/// letter, and else a function of the text alone.
pub assume_specification[ str::to_lowercase ](s: &str) -> (r: String)
    ensures
        is_ascii_text(s@) ==> r@ == ascii_lowercase(s@),
        !is_ascii_text(s@) ==> r@ == unicode_lowercase(s@),
;

/// `String::push` appends one character.
pub assume_specification[ String::push ](s: &mut String, c: char)
    ensures
        final(s)@ == old(s)@.push(c),
;

/// The characters of `s` as a vector.
pub fn chars_of(s: &str) -> (r: Vec<char>)
    ensures
        r@ == s@,
{
    let mut r: Vec<char> = Vec::new();
    for c in it: s.chars()
        invariant
            it.seq() == s@,
            r@ == s@.take(it.index()),
    {
        r.push(c);
        assert(s@.take(it.index() + 1) =~= s@.take(it.index()).push(c));
    }
    assert(s@.take(s@.len() as int) =~= s@);
    r
}

/// The text made of the characters `from..to` of `v`.
pub fn text_between(v: &Vec<char>, from: usize, to: usize) -> (r: String)
    requires
        from <= to <= v@.len(),
    ensures
        r@ == v@.subrange(from as int, to as int),
{
    let mut r = String::new();
    let mut i: usize = from;
    while i < to
        invariant
            from <= i <= to <= v@.len(),
            r@ == v@.subrange(from as int, i as int),
        decreases to - i,
    {
        r.push(v[i]);
        i = i + 1;
        assert(v@.subrange(from as int, i as int) =~= v@.subrange(from as int, i - 1).push(v@[i - 1]));
    }
    r
}

/// The text made of the characters of `v`.
pub fn text_of(v: &Vec<char>) -> (r: String)
    ensures
        r@ == v@,
{
    let r = text_between(v, 0, v.len());
    assert(v@.subrange(0, v@.len() as int) =~= v@);
    r
}

/// Whether two texts have the same characters.
pub fn same(a: &str, b: &str) -> (r: bool)
    ensures
        r == (a@ == b@),
{
    let x = a.to_owned();
    let y = b.to_owned();
    x == y
}

/// An owned copy of a text.
pub fn owned(s: &str) -> (r: String)
    ensures
        r@ == s@,
{
    s.to_owned()
}

/// Two texts one after the other.
pub fn cat2(a: &str, b: &str) -> (r: String)
    ensures
        r@ == a@ + b@,
{
    let mut r = a.to_owned();
    r.append(b);
    r
}

/// Three texts one after the other.
pub fn cat3(a: &str, b: &str, c: &str) -> (r: String)
    ensures
        r@ == a@ + b@ + c@,
{
    let mut r = cat2(a, b);
    r.append(c);
    r
}

/// Four texts one after the other.
pub fn cat4(a: &str, b: &str, c: &str, d: &str) -> (r: String)
    ensures
        r@ == a@ + b@ + c@ + d@,
{
    let mut r = cat3(a, b, c);
    r.append(d);
    r
}

/// Five texts one after the other.
pub fn cat5(a: &str, b: &str, c: &str, d: &str, e: &str) -> (r: String)
    ensures
        r@ == a@ + b@ + c@ + d@ + e@,
{
    let mut r = cat4(a, b, c, d);
    r.append(e);
    r
}

// ---------------------------------------------------------------- trimming

/// `s` without its leading white space.
pub open spec fn trim_start(s: Seq<char>) -> Seq<char>
    decreases s.len(),
{
    if s.len() > 0 && white(s[0]) {
        trim_start(s.drop_first())
    } else {
        s
    }
}

/// `s` without its trailing white space.
pub open spec fn trim_end(s: Seq<char>) -> Seq<char>
    decreases s.len(),
{
    if s.len() > 0 && white(s.last()) {
        trim_end(s.drop_last())
    } else {
        s
    }
}

/// `s` without white space at either end.
pub open spec fn trimmed(s: Seq<char>) -> Seq<char> {
    trim_end(trim_start(s))
}

/// `s` without white space at either end.
pub fn trim(s: &str) -> (r: String)
    ensures
        r@ == trimmed(s@),
{
    let v = chars_of(s);
    trim_chars(&v)
}

/// The text of `v` without white space at either end.
pub fn trim_chars(v: &Vec<char>) -> (r: String)
    ensures
        r@ == trimmed(v@),
{
    let n: usize = v.len();
    let mut from: usize = 0;
    assert(v@.subrange(0, n as int) =~= v@);
    while from < n && v[from].is_whitespace()
        invariant
            from <= n == v@.len(),
            trim_start(v@) == trim_start(v@.subrange(from as int, n as int)),
        decreases n - from,
    {
        assert(v@.subrange(from as int, n as int).drop_first() =~= v@.subrange(from + 1, n as int));
        from = from + 1;
    }
    let mut to: usize = n;
    while from < to && v[to - 1].is_whitespace()
        invariant
            from <= to <= n == v@.len(),
            trim_start(v@) == v@.subrange(from as int, n as int),
            trim_end(v@.subrange(from as int, n as int)) == trim_end(
                v@.subrange(from as int, to as int),
            ),
        decreases to - from,
    {
        assert(v@.subrange(from as int, to as int).drop_last() =~= v@.subrange(
            from as int,
            to - 1,
        ));
        to = to - 1;
    }
    text_between(v, from, to)
}

/// Whether nothing but white space is in `s`.
pub open spec fn blank(s: Seq<char>) -> bool {
    trimmed(s).len() == 0
}

// --------------------------------------------------------------- searching

/// Whether `n` occurs in `h` at position `i`.
pub open spec fn occurs_at(h: Seq<char>, n: Seq<char>, i: int) -> bool {
    0 <= i && i + n.len() <= h.len() && h.subrange(i, i + n.len()) == n
}

/// Whether `n` occurs somewhere in `h`.
pub open spec fn occurs(h: Seq<char>, n: Seq<char>) -> bool {
    exists|i: int| #[trigger] occurs_at(h, n, i)
}

/// Whether `n` occurs in `h` at position `i`.
fn found_at(h: &Vec<char>, n: &Vec<char>, i: usize) -> (r: bool)
    requires
        i + n@.len() <= h@.len(),
    ensures
        r == occurs_at(h@, n@, i as int),
{
    let mut j: usize = 0;
    let end: usize = h.len();
    while j < n.len()
        invariant
            j <= n@.len(),
            end == h@.len(),
            i + n@.len() <= h@.len(),
            forall|k: int| 0 <= k < j ==> h@[i + k] == n@[k],
        decreases n@.len() - j,
    {
        if h[i + j] != n[j] {
            assert(h@.subrange(i as int, i + n@.len())[j as int] != n@[j as int]);
            return false;
        }
        j = j + 1;
    }
    assert(h@.subrange(i as int, i + n@.len()) =~= n@);
    true
}

/// Whether `needle` occurs in `hay`.
pub fn contains(hay: &str, needle: &str) -> (r: bool)
    ensures
        r == occurs(hay@, needle@),
{
    let h = chars_of(hay);
    let n = chars_of(needle);
    if n.len() > h.len() {
        return false;
    }
    let last: usize = h.len() - n.len();
    let mut i: usize = 0;
    loop
        invariant
            h@ == hay@,
            n@ == needle@,
            last + n@.len() == h@.len(),
            i <= last,
            forall|k: int| 0 <= k < i ==> !occurs_at(h@, n@, k),
        decreases last - i,
    {
        if found_at(&h, &n, i) {
            return true;
        }
        if i == last {
            assert forall|k: int| !occurs_at(h@, n@, k) by {
                if k > last {
                }
            }
            return false;
        }
        i = i + 1;
    }
}

/// Whether `s` ends in `t`.
pub open spec fn ends_in(s: Seq<char>, t: Seq<char>) -> bool {
    t.len() <= s.len() && s.skip(s.len() - t.len()) == t
}

/// Whether `s` ends in `t`.
pub fn ends_with(s: &str, t: &str) -> (r: bool)
    ensures
        r == ends_in(s@, t@),
{
    let a = chars_of(s);
    let b = chars_of(t);
    if b.len() > a.len() {
        return false;
    }
    let k: usize = a.len() - b.len();
    let mut i: usize = 0;
    while i < b.len()
        invariant
            a@ == s@,
            b@ == t@,
            a@.len() == a.len(),
            i <= b@.len(),
            k + b@.len() == a@.len(),
            forall|j: int| 0 <= j < i ==> a@[k + j] == b@[j],
        decreases b@.len() - i,
    {
        assert(k + i < a.len());
        if a[k + i] != b[i] {
            assert(a@.skip(k as int)[i as int] != b@[i as int]);
            return false;
        }
        i = i + 1;
    }
    assert(a@.skip(k as int) =~= b@);
    true
}

/// Whether `s` starts with a slash.
pub open spec fn absolute(s: Seq<char>) -> bool {
    s.len() > 0 && s[0] == '/'
}

/// Whether `s` starts with a slash.
pub fn is_absolute(s: &str) -> (r: bool)
    ensures
        r == absolute(s@),
{
    let v = chars_of(s);
    v.len() > 0 && v[0] == '/'
}

// --------------------------------------------------- splitting and joining

/// The pieces of `s` between occurrences of separators.
pub open spec fn pieces(s: Seq<char>, sep: spec_fn(char) -> bool) -> Seq<Seq<char>>
    decreases s.len(),
{
    if s.len() == 0 {
        seq![Seq::empty()]
    } else {
        let front = pieces(s.drop_last(), sep);
        if sep(s.last()) {
            front.push(Seq::empty())
        } else {
            front.update(front.len() - 1, front.last().push(s.last()))
        }
    }
}

/// The trimmed pieces of `s` that are not blank, in order.
pub open spec fn trimmed_pieces(p: Seq<Seq<char>>) -> Seq<Seq<char>>
    decreases p.len(),
{
    if p.len() == 0 {
        Seq::empty()
    } else {
        let front = trimmed_pieces(p.drop_last());
        if blank(p.last()) {
            front
        } else {
            front.push(trimmed(p.last()))
        }
    }
}

/// `p` with `sep` between consecutive pieces.
pub open spec fn joined(p: Seq<Seq<char>>, sep: Seq<char>) -> Seq<char>
    decreases p.len(),
{
    if p.len() == 0 {
        Seq::empty()
    } else if p.len() == 1 {
        p[0]
    } else {
        joined(p.drop_last(), sep) + sep + p.last()
    }
}

pub proof fn lemma_pieces_nonempty(s: Seq<char>, sep: spec_fn(char) -> bool)
    ensures
        pieces(s, sep).len() > 0,
    decreases s.len(),
{
    if s.len() > 0 {
        lemma_pieces_nonempty(s.drop_last(), sep);
    }
}

/// Whether a separator of a comma separated list.
pub open spec fn is_comma() -> spec_fn(char) -> bool {
    |c: char| c == ','
}

/// Whether a separator of a semicolon separated list.
pub open spec fn is_semicolon() -> spec_fn(char) -> bool {
    |c: char| c == ';'
}

/// Whether a character ends a line.
pub open spec fn is_line_end() -> spec_fn(char) -> bool {
    |c: char| c == '\n' || c == '\r'
}

/// Whether a character is the one that starts a new line.
pub open spec fn is_newline() -> spec_fn(char) -> bool {
    |c: char| c == '\n'
}

/// Which characters separate the pieces of a text.
#[derive(Clone, Copy, PartialEq, Eq, Structural)]
pub enum Separator {
    Comma,
    Semicolon,
    LineEnd,
    Newline,
}

impl Separator {
    pub open spec fn test(self) -> spec_fn(char) -> bool {
        match self {
            Separator::Comma => is_comma(),
            Separator::Semicolon => is_semicolon(),
            Separator::LineEnd => is_line_end(),
            Separator::Newline => is_newline(),
        }
    }

    pub fn is(self, c: char) -> (r: bool)
        ensures
            r == (self.test())(c),
    {
        match self {
            Separator::Comma => c == ',',
            Separator::Semicolon => c == ';',
            Separator::LineEnd => c == '\n' || c == '\r',
            Separator::Newline => c == '\n',
        }
    }
}

/// The pieces of `s` between separators.
pub fn split(s: &str, sep: Separator) -> (r: Vec<String>)
    ensures
        r.deep_view() == pieces(s@, sep.test()),
{
    let v = chars_of(s);
    let mut done: Vec<String> = Vec::new();
    let mut piece = String::new();
    let mut i: usize = 0;
    assert(v@.take(0) =~= Seq::empty());
    assert(done.deep_view().push(piece@) =~= pieces(v@.take(0), sep.test()));
    while i < v.len()
        invariant
            v@ == s@,
            i <= v@.len(),
            done.deep_view().push(piece@) == pieces(v@.take(i as int), sep.test()),
        decreases v@.len() - i,
    {
        let c = v[i];
        let ghost before = pieces(v@.take(i as int), sep.test());
        assert(v@.take(i + 1).drop_last() =~= v@.take(i as int));
        assert(before.last() == piece@);
        if sep.is(c) {
            append_to(&mut done, piece);
            piece = String::new();
        } else {
            piece.push(c);
            assert(before.update(before.len() - 1, before.last().push(c)) =~= done.deep_view().push(
                piece@,
            ));
        }
        i = i + 1;
    }
    assert(v@.take(v@.len() as int) =~= v@);
    append_to(&mut done, piece);
    done
}

/// The trimmed non-blank pieces of `s` between separators.
pub fn split_trimmed(s: &str, sep: Separator) -> (r: Vec<String>)
    ensures
        r.deep_view() == trimmed_pieces(pieces(s@, sep.test())),
{
    let parts = split(s, sep);
    let mut r: Vec<String> = Vec::new();
    let mut i: usize = 0;
    let ghost p = parts.deep_view();
    assert(p.take(0) =~= Seq::empty());
    while i < parts.len()
        invariant
            p == parts.deep_view(),
            i <= parts@.len(),
            r.deep_view() == trimmed_pieces(p.take(i as int)),
        decreases parts@.len() - i,
    {
        let t = trim(parts[i].as_str());
        assert(p.take(i + 1).drop_last() =~= p.take(i as int));
        assert(p.take(i + 1).last() == parts@[i as int]@);
        if !t.as_str().is_empty() {
            append_to(&mut r, t);
        }
        i = i + 1;
    }
    assert(p.take(p.len() as int) =~= p);
    r
}

/// The texts of `v` with `sep` between consecutive ones.
pub fn join(v: &Vec<String>, sep: &str) -> (r: String)
    ensures
        r@ == joined(v.deep_view(), sep@),
{
    if v.len() == 0 {
        return String::new();
    }
    let ghost p = v.deep_view();
    let mut r = v[0].clone();
    let mut i: usize = 1;
    assert(p.take(1)[0] == v@[0]@);
    while i < v.len()
        invariant
            p == v.deep_view(),
            1 <= i <= v@.len(),
            r@ == joined(p.take(i as int), sep@),
        decreases v@.len() - i,
    {
        assert(p.take(i + 1).drop_last() =~= p.take(i as int));
        assert(p.take(i + 1).last() == v@[i as int]@);
        r.append(sep);
        r.append(v[i].as_str());
        i = i + 1;
    }
    assert(p.take(p.len() as int) =~= p);
    r
}

/// The first place of a text in a list, or zero where it is not there.
pub fn place_of_text(v: &Vec<String>, x: &str) -> (r: usize)
    requires
        v@.len() > 0,
    ensures
        r == crate::cycle::place(v.deep_view(), x@),
        r < v@.len(),
{
    let ghost s = v.deep_view();
    let mut i: usize = 0;
    while i < v.len()
        invariant
            i <= v@.len(),
            s == v.deep_view(),
            !s.take(i as int).contains(x@),
        decreases v@.len() - i,
    {
        assert(s[i as int] == v@[i as int]@);
        if same(v[i].as_str(), x) {
            proof {
                assert(s.take(i + 1).drop_last() =~= s.take(i as int));
                assert(s.take(i + 1).last() == x@);
                crate::cycle::lemma_place_prefix(s, x@, i + 1);
            }
            return i;
        }
        assert(s.take(i + 1) =~= s.take(i as int).push(s[i as int]));
        i = i + 1;
    }
    proof {
        assert(s.take(s.len() as int) =~= s);
        crate::cycle::lemma_place_absent(s, x@);
    }
    0
}

// ----------------------------------------------------------------- numbers

/// The digit character of `d`, for `d` below ten.
pub open spec fn digit(d: nat) -> char {
    (48 + d) as char
}

/// The decimal digits of `n`.
pub open spec fn decimal(n: nat) -> Seq<char>
    decreases n,
{
    if n < 10 {
        seq![digit(n)]
    } else {
        decimal(n / 10).push(digit(n % 10))
    }
}

/// The decimal notation of an integer.
pub open spec fn decimal_int(n: int) -> Seq<char> {
    if n < 0 {
        seq!['-'] + decimal((-n) as nat)
    } else {
        decimal(n as nat)
    }
}

fn digit_of(d: u64) -> (c: char)
    requires
        d < 10,
    ensures
        c == digit(d as nat),
{
    match d {
        0 => '0',
        1 => '1',
        2 => '2',
        3 => '3',
        4 => '4',
        5 => '5',
        6 => '6',
        7 => '7',
        8 => '8',
        _ => '9',
    }
}

/// The decimal notation of a number.
pub fn number(n: u64) -> (r: String)
    ensures
        r@ == decimal(n as nat),
    decreases n,
{
    let mut r = if n < 10 {
        String::new()
    } else {
        number(n / 10)
    };
    r.push(digit_of(n % 10));
    assert(r@ =~= decimal(n as nat));
    r
}

/// The decimal notation of a number, with `-` before a negative one.
pub fn signed_number(n: i64) -> (r: String)
    ensures
        r@ == decimal_int(n as int),
{
    if n < 0 {
        let digits = number((-(n + 1)) as u64 + 1);
        proof {
            reveal_strlit("-");
            assert("-"@ =~= seq!['-']);
        }
        cat2("-", digits.as_str())
    } else {
        number(n as u64)
    }
}

pub open spec fn is_digit(c: char) -> bool {
    '0' <= c <= '9'
}

/// The number that a row of decimal digits writes.
pub open spec fn digits_value(s: Seq<char>) -> nat
    decreases s.len(),
{
    if s.len() == 0 {
        0
    } else {
        digits_value(s.drop_last()) * 10 + (s.last() as nat - 48) as nat
    }
}

pub open spec fn all_digits(s: Seq<char>) -> bool {
    s.len() > 0 && forall|i: int| 0 <= i < s.len() ==> is_digit(#[trigger] s[i])
}

/// The unsigned number that `s` writes: digits, after an optional `+`.
pub open spec fn unsigned_value(s: Seq<char>) -> Option<nat> {
    let body = if s.len() > 0 && s[0] == '+' {
        s.drop_first()
    } else {
        s
    };
    if all_digits(body) {
        Some(digits_value(body))
    } else {
        None
    }
}

/// The integer that `s` writes: digits, after an optional `+` or `-`.
pub open spec fn integer_value(s: Seq<char>) -> Option<int> {
    if s.len() > 0 && s[0] == '-' {
        if all_digits(s.drop_first()) {
            Some(-(digits_value(s.drop_first()) as int))
        } else {
            None
        }
    } else {
        match unsigned_value(s) {
            Some(n) => Some(n as int),
            None => None,
        }
    }
}

/// What of an integer fits into a range.
pub open spec fn in_range(v: Option<int>, low: int, high: int) -> Option<int> {
    match v {
        Some(n) => if low <= n <= high {
            Some(n)
        } else {
            None
        },
        None => None,
    }
}

/// `str::parse` of an `i64`: an optional sign followed by digits only, in range.
#[verifier::external_body]
pub(crate) fn parse_i64(s: &str) -> (r: Option<i64>)
    ensures
        match r {
            Some(n) => in_range(integer_value(s@), i64::MIN as int, i64::MAX as int) == Some(n as int),
            None => in_range(integer_value(s@), i64::MIN as int, i64::MAX as int) is None,
        },
{
    s.parse::<i64>().ok()
}

/// What of a number is at most `high`.
pub open spec fn at_most(v: Option<nat>, high: nat) -> Option<nat> {
    match v {
        Some(n) => if n <= high {
            Some(n)
        } else {
            None
        },
        None => None,
    }
}

/// `str::parse` of a `u64`: an optional `+` followed by digits only, in range.
#[verifier::external_body]
pub(crate) fn parse_u64(s: &str) -> (r: Option<u64>)
    ensures
        match r {
            Some(n) => at_most(unsigned_value(s@), u64::MAX as nat) == Some(n as nat),
            None => at_most(unsigned_value(s@), u64::MAX as nat) is None,
        },
{
    s.parse::<u64>().ok()
}

/// A line without the carriage return at its end.
pub open spec fn without_return(s: Seq<char>) -> Seq<char> {
    if s.len() > 0 && s.last() == '\r' {
        s.drop_last()
    } else {
        s
    }
}

/// The lines of a text: its pieces between line feeds, each without a
/// carriage return before the line feed, and without an empty last one.
pub open spec fn lines_in(s: Seq<char>) -> Seq<Seq<char>> {
    let p = pieces(s, is_newline());
    let front = p.drop_last().map_values(|l: Seq<char>| without_return(l));
    if p.last().len() == 0 {
        front
    } else {
        front.push(p.last())
    }
}

/// The lines of a text.
pub fn split_lines(s: &str) -> (r: Vec<String>)
    ensures
        r.deep_view() == lines_in(s@),
{
    let v = split(s, Separator::Newline);
    let ghost p = v.deep_view();
    let mut r: Vec<String> = Vec::new();
    let mut i: usize = 0;
    proof {
        lemma_pieces_nonempty(s@, is_newline());
        assert(r.deep_view() =~= p.take(0).map_values(|l: Seq<char>| without_return(l)));
    }
    while i < v.len() - 1
        invariant
            p == v.deep_view(),
            v@.len() > 0,
            i < v@.len(),
            r.deep_view() == p.take(i as int).map_values(|l: Seq<char>| without_return(l)),
        decreases v@.len() - i,
    {
        let chars = chars_of(v[i].as_str());
        let n: usize = chars.len();
        let line = if n > 0 && chars[n - 1] == '\r' {
            text_between(&chars, 0, n - 1)
        } else {
            v[i].clone()
        };
        assert(line@ =~= without_return(p[i as int]));
        append_to(&mut r, line);
        i = i + 1;
        assert(p.take(i as int).map_values(|l: Seq<char>| without_return(l)) =~= p.take(i - 1).map_values(
            |l: Seq<char>| without_return(l),
        ).push(without_return(p[i - 1])));
    }
    assert(p.take(p.len() - 1) =~= p.drop_last());
    assert(p.last() == v@[i as int]@);
    if !v[i].as_str().is_empty() {
        append_to(&mut r, v[i].clone());
    }
    r
}

// ------------------------------------------------------------------- words

/// The words of `s`: its pieces between white space that are not empty.
pub open spec fn words(s: Seq<char>) -> Seq<Seq<char>> {
    nonempty(pieces(s, |c: char| white(c)))
}

/// The members of `p` that are not empty.
pub open spec fn nonempty(p: Seq<Seq<char>>) -> Seq<Seq<char>>
    decreases p.len(),
{
    if p.len() == 0 {
        Seq::empty()
    } else {
        let front = nonempty(p.drop_last());
        if p.last().len() == 0 {
            front
        } else {
            front.push(p.last())
        }
    }
}

/// A text has at most one word more than it has characters.
pub proof fn lemma_words_count(s: Seq<char>)
    ensures
        words(s).len() <= s.len() + 1,
{
    lemma_pieces_count(s, |c: char| white(c));
    lemma_nonempty_count(pieces(s, |c: char| white(c)));
}

proof fn lemma_pieces_count(s: Seq<char>, sep: spec_fn(char) -> bool)
    ensures
        0 < pieces(s, sep).len() <= s.len() + 1,
    decreases s.len(),
{
    if s.len() > 0 {
        lemma_pieces_count(s.drop_last(), sep);
    }
}

proof fn lemma_nonempty_count(p: Seq<Seq<char>>)
    ensures
        nonempty(p).len() <= p.len(),
    decreases p.len(),
{
    if p.len() > 0 {
        lemma_nonempty_count(p.drop_last());
    }
}

/// The words of `s`.
pub fn split_words(s: &str) -> (r: Vec<String>)
    ensures
        r.deep_view() == words(s@),
{
    let v = chars_of(s);
    let ghost sep = |c: char| white(c);
    let mut done: Vec<String> = Vec::new();
    let mut piece = String::new();
    let mut i: usize = 0;
    assert(v@.take(0) =~= Seq::empty());
    proof {
        assert(pieces(v@.take(0), sep) =~= seq![Seq::<char>::empty()]);
        assert(pieces(v@.take(0), sep).drop_last() =~= Seq::empty());
        assert(nonempty(Seq::<Seq<char>>::empty()) =~= done.deep_view());
    }
    while i < v.len()
        invariant
            v@ == s@,
            sep == (|c: char| white(c)),
            i <= v@.len(),
            pieces(v@.take(i as int), sep).len() > 0,
            pieces(v@.take(i as int), sep).last() == piece@,
            done.deep_view() == nonempty(pieces(v@.take(i as int), sep).drop_last()),
        decreases v@.len() - i,
    {
        let c = v[i];
        let ghost before = pieces(v@.take(i as int), sep);
        assert(v@.take(i + 1).drop_last() =~= v@.take(i as int));
        let ghost after = pieces(v@.take(i + 1), sep);
        if c.is_whitespace() {
            assert(after == before.push(Seq::empty()));
            assert(after.drop_last() =~= before);
            if !piece.as_str().is_empty() {
                append_to(&mut done, piece);
            }
            piece = String::new();
            assert(piece@ =~= after.last());
        } else {
            piece.push(c);
            assert(after == before.update(before.len() - 1, before.last().push(c)));
            assert(after.drop_last() =~= before.drop_last());
        }
        i = i + 1;
    }
    assert(v@.take(v@.len() as int) =~= v@);
    if !piece.as_str().is_empty() {
        append_to(&mut done, piece);
    }
    done
}

/// `s` on one line: its words with single spaces between them.
pub open spec fn single_line(s: Seq<char>) -> Seq<char> {
    joined(words(s), " "@)
}

/// `s` on one line: its words with single spaces between them.
pub fn one_line(s: &str) -> (r: String)
    ensures
        r@ == single_line(s@),
{
    let w = split_words(s);
    join(&w, " ")
}

/// The lowercase of `s` without white space at either end.
pub fn trim_lower(s: &str) -> (r: String)
    ensures
        r@ == lowercase(trimmed(s@)),
{
    let t = trim(s);
    t.as_str().to_lowercase()
}

/// Whether the lowercase of `hay` contains `q`.
pub fn lower_contains(hay: &str, q: &str) -> (r: bool)
    ensures
        r == occurs(lowercase(hay@), q@),
{
    let l = hay.to_lowercase();
    contains(l.as_str(), q)
}

// -------------------------------------------------------------------- laws

proof fn lemma_pieces_extend(s: Seq<char>, t: Seq<char>, sep: spec_fn(char) -> bool)
    requires
        forall|i: int| 0 <= i < t.len() ==> !sep(#[trigger] t[i]),
    ensures
        pieces(s + t, sep) == pieces(s, sep).update(pieces(s, sep).len() - 1, pieces(s, sep).last() + t),
    decreases t.len(),
{
    lemma_pieces_nonempty(s, sep);
    let p = pieces(s, sep);
    if t.len() == 0 {
        assert(s + t =~= s);
        assert(p.last() + t =~= p.last());
        assert(p.update(p.len() - 1, p.last()) =~= p);
    } else {
        let u = t.drop_last();
        assert forall|i: int| 0 <= i < u.len() implies !sep(#[trigger] u[i]) by {
            assert(u[i] == t[i]);
        }
        lemma_pieces_extend(s, u, sep);
        assert((s + t).drop_last() =~= s + u);
        assert((s + t).last() == t.last());
        assert(!sep(t[t.len() - 1]));
        let q = p.update(p.len() - 1, p.last() + u);
        assert((p.last() + u).push(t.last()) =~= p.last() + t);
        assert(q.update(q.len() - 1, q.last().push(t.last())) =~= p.update(p.len() - 1, p.last() + t));
    }
}

/// The pieces of a joined text: `gap` in front of each piece but the first.
pub open spec fn gapped(v: Seq<Seq<char>>, gap: Seq<char>) -> Seq<Seq<char>> {
    Seq::new(
        v.len(),
        |i: int|
            if i == 0 {
                v[0]
            } else {
                gap + v[i]
            },
    )
}

/// Splitting undoes joining: a text joined with a separator and a gap behind
/// it splits into the pieces it was made of, where none holds a separator.
pub proof fn splitting_undoes_joining(v: Seq<Seq<char>>, c: char, gap: Seq<char>, sep: spec_fn(char) -> bool)
    requires
        v.len() > 0,
        sep(c),
        forall|i: int| 0 <= i < gap.len() ==> !sep(#[trigger] gap[i]),
        forall|i: int, k: int| 0 <= i < v.len() && 0 <= k < v[i].len() ==> !sep(#[trigger] v[i][k]),
    ensures
        pieces(joined(v, seq![c] + gap), sep) == gapped(v, gap),
    decreases v.len(),
{
    if v.len() == 1 {
        let e = Seq::<char>::empty();
        assert(e + v[0] =~= v[0]);
        assert forall|k: int| 0 <= k < v[0].len() implies !sep(#[trigger] v[0][k]) by {}
        lemma_pieces_extend(e, v[0], sep);
        assert(pieces(e, sep) =~= seq![e]);
        assert(pieces(v[0], sep) =~= gapped(v, gap));
    } else {
        let w = v.drop_last();
        assert forall|i: int, k: int| 0 <= i < w.len() && 0 <= k < w[i].len() implies !sep(#[trigger] w[i][k]) by {
            assert(w[i] == v[i]);
        }
        splitting_undoes_joining(w, c, gap, sep);
        let front = joined(w, seq![c] + gap);
        let tail = gap + v.last();
        assert forall|k: int| 0 <= k < tail.len() implies !sep(#[trigger] tail[k]) by {
            if k < gap.len() {
                assert(tail[k] == gap[k]);
            } else {
                assert(tail[k] == v[v.len() - 1][k - gap.len()]);
            }
        }
        assert(front.push(c).drop_last() =~= front);
        assert(pieces(front.push(c), sep) == pieces(front, sep).push(Seq::empty()));
        lemma_pieces_extend(front.push(c), tail, sep);
        assert(joined(v, seq![c] + gap) =~= front.push(c) + tail);
        assert(Seq::<char>::empty() + tail =~= tail);
        assert(pieces(joined(v, seq![c] + gap), sep) =~= gapped(v, gap));
    }
}

proof fn lemma_trim_lengths(s: Seq<char>)
    ensures
        trim_start(s).len() <= s.len(),
        trim_end(s).len() <= s.len(),
        s.len() > 0 && white(s[0]) ==> trim_start(s).len() < s.len(),
        s.len() > 0 && white(s.last()) ==> trim_end(s).len() < s.len(),
        trim_start(s).len() == s.len() ==> trim_start(s) == s,
    decreases s.len(),
{
    if s.len() > 0 {
        lemma_trim_lengths(s.drop_first());
        lemma_trim_lengths(s.drop_last());
    }
}

/// A text is trimmed where it is empty or has no white space at either end.
pub proof fn lemma_trimmed(s: Seq<char>)
    ensures
        trimmed(s) == s <==> s.len() == 0 || (!white(s[0]) && !white(s.last())),
{
    lemma_trim_lengths(s);
    lemma_trim_lengths(trim_start(s));
}

/// White space in front does not change what is left of a text.
pub proof fn lemma_trim_space(s: Seq<char>)
    ensures
        trimmed(seq![' '] + s) == trimmed(s),
{
    assert((seq![' '] + s).drop_first() =~= s);
}

pub proof fn lemma_decimal(n: nat)
    ensures
        all_digits(decimal(n)),
        digits_value(decimal(n)) == n,
    decreases n,
{
    reveal_with_fuel(digits_value, 2);
    if n < 10 {
        assert(decimal(n).drop_last() =~= Seq::empty());
    } else {
        lemma_decimal(n / 10);
        assert(decimal(n).drop_last() =~= decimal(n / 10));
    }
}

/// A number that is written and read again comes back.
pub proof fn numbers_read_as_written(n: int)
    ensures
        integer_value(decimal_int(n)) == Some(n),
        trimmed(decimal_int(n)) == decimal_int(n),
{
    let s = decimal_int(n);
    lemma_trimmed(s);
    if n < 0 {
        lemma_decimal((-n) as nat);
        assert(s.drop_first() =~= decimal((-n) as nat));
        assert(s.last() == decimal((-n) as nat).last());
    } else {
        lemma_decimal(n as nat);
        assert(is_digit(s[0]));
    }
    assert(is_digit(s.last()));
}

/// Whether every character of `s` passes a test.
pub open spec fn made_of(s: Seq<char>, ok: spec_fn(char) -> bool) -> bool {
    forall|k: int| 0 <= k < s.len() ==> ok(#[trigger] s[k])
}

/// What holds of every character but the separators holds of every
/// character of the pieces.
pub proof fn lemma_pieces_made_of(s: Seq<char>, sep: spec_fn(char) -> bool, ok: spec_fn(char) -> bool)
    requires
        forall|k: int| 0 <= k < s.len() ==> sep(#[trigger] s[k]) || ok(s[k]),
    ensures
        forall|i: int| 0 <= i < pieces(s, sep).len() ==> made_of(#[trigger] pieces(s, sep)[i], ok),
    decreases s.len(),
{
    if s.len() > 0 {
        let front = pieces(s.drop_last(), sep);
        lemma_pieces_nonempty(s.drop_last(), sep);
        assert forall|k: int| 0 <= k < s.drop_last().len() implies sep(#[trigger] s.drop_last()[k]) || ok(
            s.drop_last()[k],
        ) by {
            assert(s.drop_last()[k] == s[k]);
        }
        lemma_pieces_made_of(s.drop_last(), sep, ok);
        assert(made_of(front[front.len() - 1], ok));
        assert(sep(s[s.len() - 1]) || ok(s[s.len() - 1]));
    }
}

/// What is left of a text after trimming is one part of it, and trimming
/// that again changes nothing.
pub proof fn lemma_trimmed_part(s: Seq<char>, ok: spec_fn(char) -> bool)
    requires
        made_of(s, ok),
    ensures
        made_of(trimmed(s), ok),
        trimmed(trimmed(s)) == trimmed(s),
{
    lemma_trim_start_part(s, ok);
    lemma_trim_end_part(trim_start(s), ok);
    let t = trimmed(s);
    if t.len() > 0 {
        assert(t[0] == trim_start(s)[0]);
    }
    lemma_trimmed(t);
}

proof fn lemma_trim_start_part(s: Seq<char>, ok: spec_fn(char) -> bool)
    requires
        made_of(s, ok),
    ensures
        made_of(trim_start(s), ok),
        trim_start(s).len() > 0 ==> !white(trim_start(s)[0]),
    decreases s.len(),
{
    if s.len() > 0 && white(s[0]) {
        assert(made_of(s.drop_first(), ok));
        lemma_trim_start_part(s.drop_first(), ok);
    }
}

proof fn lemma_trim_end_part(s: Seq<char>, ok: spec_fn(char) -> bool)
    requires
        made_of(s, ok),
    ensures
        made_of(trim_end(s), ok),
        trim_end(s).len() > 0 ==> !white(trim_end(s).last()) && trim_end(s)[0] == s[0],
    decreases s.len(),
{
    if s.len() > 0 && white(s.last()) {
        assert(made_of(s.drop_last(), ok));
        lemma_trim_end_part(s.drop_last(), ok);
    }
}

/// The trimmed pieces of a text are not empty, and trimming them again
/// changes nothing.
pub proof fn lemma_trimmed_pieces(p: Seq<Seq<char>>, ok: spec_fn(char) -> bool)
    requires
        forall|i: int| 0 <= i < p.len() ==> made_of(#[trigger] p[i], ok),
    ensures
        forall|i: int| 0 <= i < trimmed_pieces(p).len() ==> {
            &&& made_of(#[trigger] trimmed_pieces(p)[i], ok)
            &&& trimmed_pieces(p)[i].len() > 0
            &&& trimmed(trimmed_pieces(p)[i]) == trimmed_pieces(p)[i]
        },
    decreases p.len(),
{
    if p.len() > 0 {
        let front = p.drop_last();
        assert forall|i: int| 0 <= i < front.len() implies made_of(#[trigger] front[i], ok) by {
            assert(front[i] == p[i]);
        }
        lemma_trimmed_pieces(front, ok);
        assert(made_of(p[p.len() - 1], ok));
        lemma_trimmed_part(p.last(), ok);
        let all = trimmed_pieces(p);
        assert forall|i: int| 0 <= i < all.len() implies {
            &&& made_of(#[trigger] all[i], ok)
            &&& all[i].len() > 0
            &&& trimmed(all[i]) == all[i]
        } by {
            if i < trimmed_pieces(front).len() {
                assert(all[i] == trimmed_pieces(front)[i]);
            } else {
                assert(all[i] == trimmed(p.last()));
            }
        }
    }
}

pub proof fn lemma_joined_made_of(p: Seq<Seq<char>>, sep: Seq<char>, ok: spec_fn(char) -> bool)
    requires
        made_of(sep, ok),
        forall|i: int| 0 <= i < p.len() ==> made_of(#[trigger] p[i], ok),
    ensures
        made_of(joined(p, sep), ok),
    decreases p.len(),
{
    if p.len() > 0 {
        assert(made_of(p[p.len() - 1], ok));
        assert(made_of(p[0], ok));
        let front = p.drop_last();
        assert forall|i: int| 0 <= i < front.len() implies made_of(#[trigger] front[i], ok) by {
            assert(front[i] == p[i]);
        }
        lemma_joined_made_of(front, sep, ok);
    }
}

} // verus!
