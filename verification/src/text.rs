//! Text primitives the parsers are built from, each specified over `Seq<char>`.

use vstd::prelude::*;

verus! {

/// The characters of `s`, in order.
pub fn chars_of(s: &str) -> (r: Vec<char>)
    ensures
        r@ == s@,
{
    let mut v: Vec<char> = Vec::new();
    for c in it: s.chars()
        invariant
            v@ == it.seq().take(it.index()),
    {
        v.push(c);
    }
    proof {
        broadcast use vstd::string::axiom_spec_iter;
    }
    assert(v@ =~= s@);
    v
}

/// The views of a sequence of strings.
pub open spec fn views_of(v: Seq<String>) -> Seq<Seq<char>> {
    v.map_values(|x: String| x@)
}

/// An owned copy of the characters `from..to` of `s`.
pub fn piece(s: &str, from: usize, to: usize) -> (r: String)
    requires
        from <= to <= s@.len(),
    ensures
        r@ == s@.subrange(from as int, to as int),
{
    String::from_str(s.substring_char(from, to))
}

// ---------------------------------------------------------------------------
// White space and trimming
// ---------------------------------------------------------------------------

/// The Unicode `White_Space` property, which `char::is_whitespace` tests.
pub open spec fn is_white_space(c: char) -> bool {
    let u = c as u32;
    ||| 9 <= u <= 13
    ||| u == 0x20
    ||| u == 0x85
    ||| u == 0xA0
    ||| u == 0x1680
    ||| 0x2000 <= u <= 0x200A
    ||| u == 0x2028
    ||| u == 0x2029
    ||| u == 0x202F
    ||| u == 0x205F
    ||| u == 0x3000
}

/// Whether `c` is a white-space character.
pub fn white_space(c: char) -> (r: bool)
    ensures
        r == is_white_space(c),
{
    let u = c as u32;
    (9 <= u && u <= 13) || u == 0x20 || u == 0x85 || u == 0xA0 || u == 0x1680 || (0x2000 <= u
        && u <= 0x200A) || u == 0x2028 || u == 0x2029 || u == 0x202F || u == 0x205F || u
        == 0x3000
}

/// `s` without its leading white space.
pub open spec fn trim_front(s: Seq<char>) -> Seq<char>
    decreases s.len(),
{
    if s.len() > 0 && is_white_space(s[0]) {
        trim_front(s.drop_first())
    } else {
        s
    }
}

/// `s` without its trailing white space.
pub open spec fn trim_back(s: Seq<char>) -> Seq<char>
    decreases s.len(),
{
    if s.len() > 0 && is_white_space(s.last()) {
        trim_back(s.drop_last())
    } else {
        s
    }
}

/// `s` without leading and trailing white space, as `str::trim` returns it.
pub open spec fn trimmed(s: Seq<char>) -> Seq<char> {
    trim_back(trim_front(s))
}

/// `s` without leading and trailing white space.
pub fn trim(s: &str) -> (r: &str)
    ensures
        r@ == trimmed(s@),
{
    let cs = chars_of(s);
    let n = cs.len();
    let mut a: usize = 0;
    assert(s@.subrange(0, n as int) =~= s@);
    while a < n && white_space(cs[a])
        invariant
            cs@ == s@,
            n == s@.len(),
            a <= n,
            trim_front(s@) == trim_front(s@.subrange(a as int, n as int)),
        decreases n - a,
    {
        assert(s@.subrange(a as int, n as int).drop_first() =~= s@.subrange(a + 1, n as int));
        a = a + 1;
    }
    let ghost front = s@.subrange(a as int, n as int);
    assert(trim_front(s@) == front);
    let mut b: usize = n;
    while b > a && white_space(cs[b - 1])
        invariant
            cs@ == s@,
            n == s@.len(),
            a <= b <= n,
            front == s@.subrange(a as int, n as int),
            trim_back(front) == trim_back(s@.subrange(a as int, b as int)),
        decreases b,
    {
        assert(s@.subrange(a as int, b as int).drop_last() =~= s@.subrange(a as int, b - 1));
        b = b - 1;
    }
    assert(trim_back(front) == s@.subrange(a as int, b as int));
    s.substring_char(a, b)
}

// ---------------------------------------------------------------------------
// Equality, prefixes, suffixes, substrings
// ---------------------------------------------------------------------------

/// `needle` occurs in `hay` at position `i`.
pub open spec fn occurs_at(hay: Seq<char>, needle: Seq<char>, i: int) -> bool {
    &&& 0 <= i
    &&& i + needle.len() <= hay.len()
    &&& hay.subrange(i, i + needle.len()) == needle
}

/// `needle` occurs somewhere in `hay` (`str::contains`).
pub open spec fn contains_text(hay: Seq<char>, needle: Seq<char>) -> bool {
    exists|i: int| occurs_at(hay, needle, i)
}

/// `s` begins with `p` (`str::starts_with`).
pub open spec fn starts_with_text(s: Seq<char>, p: Seq<char>) -> bool {
    occurs_at(s, p, 0)
}

/// `s` ends with `p` (`str::ends_with`).
pub open spec fn ends_with_text(s: Seq<char>, p: Seq<char>) -> bool {
    p.len() <= s.len() && occurs_at(s, p, s.len() - p.len())
}

fn occurs_at_exec(hay: &Vec<char>, needle: &Vec<char>, i: usize) -> (r: bool)
    requires
        i + needle@.len() <= hay@.len(),
    ensures
        r == occurs_at(hay@, needle@, i as int),
{
    let m = needle.len();
    let mut k: usize = 0;
    while k < m
        invariant
            m == needle@.len(),
            i + m <= hay.len(),
            k <= m,
            forall|j: int| 0 <= j < k ==> hay@[i + j] == needle@[j],
        decreases m - k,
    {
        if hay[i + k] != needle[k] {
            assert(hay@.subrange(i as int, i + m)[k as int] != needle@[k as int]);
            return false;
        }
        k = k + 1;
    }
    assert(hay@.subrange(i as int, i + m) =~= needle@);
    true
}

/// Whether the two texts are equal.
pub fn text_eq(a: &str, b: &str) -> (r: bool)
    ensures
        r == (a@ == b@),
{
    let ca = chars_of(a);
    let cb = chars_of(b);
    if ca.len() != cb.len() {
        return false;
    }
    let r = occurs_at_exec(&ca, &cb, 0);
    assert(ca@.subrange(0, cb@.len() as int) =~= ca@);
    r
}

/// Whether `s` begins with `p`.
pub fn starts_with(s: &str, p: &str) -> (r: bool)
    ensures
        r == starts_with_text(s@, p@),
{
    let cs = chars_of(s);
    let cp = chars_of(p);
    if cp.len() > cs.len() {
        return false;
    }
    occurs_at_exec(&cs, &cp, 0)
}

/// Whether `s` ends with `p`.
pub fn ends_with(s: &str, p: &str) -> (r: bool)
    ensures
        r == ends_with_text(s@, p@),
{
    let cs = chars_of(s);
    let cp = chars_of(p);
    if cp.len() > cs.len() {
        return false;
    }
    occurs_at_exec(&cs, &cp, cs.len() - cp.len())
}

/// Whether `needle` occurs in `hay`.
pub fn contains(hay: &str, needle: &str) -> (r: bool)
    ensures
        r == contains_text(hay@, needle@),
{
    let ch = chars_of(hay);
    let cn = chars_of(needle);
    if cn.len() > ch.len() {
        return false;
    }
    let last = ch.len() - cn.len();
    let mut i: usize = 0;
    loop
        invariant
            ch@ == hay@,
            cn@ == needle@,
            last + cn@.len() == hay@.len(),
            i <= last,
            forall|j: int| 0 <= j < i ==> !occurs_at(hay@, needle@, j),
        decreases last - i,
    {
        if occurs_at_exec(&ch, &cn, i) {
            return true;
        }
        if i == last {
            return false;
        }
        i = i + 1;
    }
}

// ---------------------------------------------------------------------------
// Lower case
// ---------------------------------------------------------------------------

/// What `str::to_lowercase` gives for a text: the Unicode lower-case mapping of
/// every character (with the final-sigma rule).
pub uninterp spec fn lowercase(s: Seq<char>) -> Seq<char>;

/// `str::to_lowercase`: its result is named `lowercase` of the argument.
#[verifier::external_body]
pub(crate) fn to_lowercase(s: &str) -> (r: String)
    ensures
        r@ == lowercase(s@),
{
    s.to_lowercase()
}

// ---------------------------------------------------------------------------
// Splitting
// ---------------------------------------------------------------------------

/// `i` is the first position of `c` in `s`.
pub open spec fn is_first_index(s: Seq<char>, c: char, i: int) -> bool {
    &&& 0 <= i < s.len()
    &&& s[i] == c
    &&& forall|k: int| 0 <= k < i ==> s[k] != c
}

/// `line` without one trailing carriage return.
pub open spec fn strip_cr(line: Seq<char>) -> Seq<char> {
    if line.len() > 0 && line.last() == '\r' {
        line.drop_last()
    } else {
        line
    }
}

/// The lines of `s`, as `str::lines` gives them: split at `\n`, a `\r` just before a
/// `\n` dropped, and no empty line after a final `\n`.
pub open spec fn lines_of(s: Seq<char>) -> Seq<Seq<char>>
    decreases s.len(),
{
    if s.len() == 0 {
        seq![]
    } else if exists|i: int| is_first_index(s, '\n', i) {
        let i = choose|i: int| is_first_index(s, '\n', i);
        seq![strip_cr(s.subrange(0, i))] + lines_of(s.subrange(i + 1, s.len() as int))
    } else {
        seq![s]
    }
}

proof fn lemma_first_index_unique(s: Seq<char>, c: char, i: int, j: int)
    requires
        is_first_index(s, c, i),
        is_first_index(s, c, j),
    ensures
        i == j,
{
    if i < j {
        assert(s[i] != c);
    } else if j < i {
        assert(s[j] != c);
    }
}

/// The lines of `s`.
pub fn split_lines(s: &str) -> (r: Vec<String>)
    ensures
        views_of(r@) == lines_of(s@),
{
    let cs = chars_of(s);
    let n = cs.len();
    let mut out: Vec<String> = Vec::new();
    let mut start: usize = 0;
    let mut j: usize = 0;
    assert(s@.subrange(0, n as int) =~= s@);
    assert(views_of(out@) + lines_of(s@) =~= lines_of(s@));
    while j < n
        invariant
            cs@ == s@,
            n == s@.len(),
            start <= j <= n,
            forall|k: int| start <= k < j ==> s@[k] != '\n',
            lines_of(s@) == views_of(out@) + lines_of(s@.subrange(start as int, n as int)),
        decreases n - j,
    {
        if cs[j] == '\n' {
            let ghost rest = s@.subrange(start as int, n as int);
            let ghost i = j - start;
            assert(is_first_index(rest, '\n', i));
            assert forall|i2: int| is_first_index(rest, '\n', i2) implies i2 == i by {
                lemma_first_index_unique(rest, '\n', i, i2);
            }
            assert(rest.subrange(0, i) =~= s@.subrange(start as int, j as int));
            assert(rest.subrange(i + 1, rest.len() as int) =~= s@.subrange(j + 1, n as int));
            let end = if j > start && cs[j - 1] == '\r' {
                j - 1
            } else {
                j
            };
            let line = piece(s, start, end);
            assert(line@ =~= strip_cr(s@.subrange(start as int, j as int)));
            let ghost before = out@;
            out.push(line);
            assert(views_of(out@) =~= views_of(before).push(line@));
            assert(views_of(out@) + lines_of(s@.subrange(j + 1, n as int)) =~= views_of(before)
                + lines_of(rest));
            start = j + 1;
        }
        j = j + 1;
    }
    let ghost rest = s@.subrange(start as int, n as int);
    if start < n {
        assert(!exists|i: int| is_first_index(rest, '\n', i));
        let line = piece(s, start, n);
        let ghost before = out@;
        out.push(line);
        assert(views_of(out@) =~= views_of(before).push(line@));
        assert(views_of(out@) =~= views_of(before) + lines_of(rest));
    } else {
        assert(rest.len() == 0);
        assert(views_of(out@) + lines_of(rest) =~= views_of(out@));
    }
    out
}


/// `s` split at its first `n - 1` occurrences of `sep`, as `str::splitn(n, sep)`
/// gives it for `n >= 1`.
pub open spec fn split_n(s: Seq<char>, sep: char, n: nat) -> Seq<Seq<char>>
    decreases n,
{
    if n <= 1 {
        seq![s]
    } else if exists|i: int| is_first_index(s, sep, i) {
        let i = choose|i: int| is_first_index(s, sep, i);
        seq![s.subrange(0, i)] + split_n(s.subrange(i + 1, s.len() as int), sep, (n - 1) as nat)
    } else {
        seq![s]
    }
}

/// `s` split at its first `n - 1` occurrences of `sep`.
pub fn split_at_most(s: &str, sep: char, n: usize) -> (r: Vec<String>)
    requires
        n >= 1,
    ensures
        views_of(r@) == split_n(s@, sep, n as nat),
{
    let cs = chars_of(s);
    let len = cs.len();
    let mut out: Vec<String> = Vec::new();
    let mut start: usize = 0;
    let mut j: usize = 0;
    let mut left: usize = n;
    assert(s@.subrange(0, len as int) =~= s@);
    assert(views_of(out@) + split_n(s@, sep, n as nat) =~= split_n(s@, sep, n as nat));
    while j < len && left > 1
        invariant
            cs@ == s@,
            len == s@.len(),
            start <= j <= len,
            left >= 1,
            forall|k: int| start <= k < j ==> s@[k] != sep,
            split_n(s@, sep, n as nat) == views_of(out@) + split_n(
                s@.subrange(start as int, len as int),
                sep,
                left as nat,
            ),
        decreases len - j,
    {
        if cs[j] == sep {
            let ghost rest = s@.subrange(start as int, len as int);
            let ghost i = j - start;
            assert(is_first_index(rest, sep, i));
            assert forall|i2: int| is_first_index(rest, sep, i2) implies i2 == i by {
                lemma_first_index_unique(rest, sep, i, i2);
            }
            assert(rest.subrange(0, i) =~= s@.subrange(start as int, j as int));
            assert(rest.subrange(i + 1, rest.len() as int) =~= s@.subrange(j + 1, len as int));
            let field = piece(s, start, j);
            let ghost before = out@;
            out.push(field);
            assert(views_of(out@) =~= views_of(before).push(field@));
            assert(views_of(out@) + split_n(s@.subrange(j + 1, len as int), sep, (left - 1) as nat)
                =~= views_of(before) + split_n(rest, sep, left as nat));
            start = j + 1;
            left = left - 1;
        }
        j = j + 1;
    }
    let ghost rest = s@.subrange(start as int, len as int);
    if left > 1 {
        assert(!exists|i: int| is_first_index(rest, sep, i));
    }
    let field = piece(s, start, len);
    let ghost before = out@;
    out.push(field);
    assert(views_of(out@) =~= views_of(before).push(field@));
    assert(views_of(out@) =~= views_of(before) + split_n(rest, sep, left as nat));
    out
}

// ---------------------------------------------------------------------------
// Unsigned decimal numbers
// ---------------------------------------------------------------------------

/// `c` is one of `0`..`9`.
pub open spec fn is_digit(c: char) -> bool {
    '0' <= c <= '9'
}

/// The value of the digit `c`.
pub open spec fn digit_value(c: char) -> nat {
    (c as int - '0' as int) as nat
}

/// The value of a string of decimal digits (most significant first).
pub open spec fn decimal_value(s: Seq<char>) -> nat
    decreases s.len(),
{
    if s.len() == 0 {
        0
    } else {
        decimal_value(s.drop_last()) * 10 + digit_value(s.last())
    }
}

/// Every character of `s` is a decimal digit.
pub open spec fn all_digits(s: Seq<char>) -> bool {
    forall|i: int| 0 <= i < s.len() ==> is_digit(#[trigger] s[i])
}

/// `s` without one leading `+`.
pub open spec fn unsigned_body(s: Seq<char>) -> Seq<char> {
    if s.len() > 0 && s[0] == '+' {
        s.drop_first()
    } else {
        s
    }
}

/// What `str::parse` gives for an unsigned integer type whose largest value is
/// `limit`: an optional `+` and at least one decimal digit, nothing else, and a
/// value that fits.
pub open spec fn parsed_unsigned(s: Seq<char>, limit: nat) -> Option<nat> {
    let d = unsigned_body(s);
    if d.len() > 0 && all_digits(d) && decimal_value(d) <= limit {
        Some(decimal_value(d))
    } else {
        None
    }
}

/// Parses an unsigned decimal number no greater than `limit`.
pub fn parse_unsigned(s: &str, limit: u64) -> (r: Option<u64>)
    ensures
        match r {
            Some(v) => parsed_unsigned(s@, limit as nat) == Some(v as nat),
            None => parsed_unsigned(s@, limit as nat) is None,
        },
{
    let cs = chars_of(s);
    let len = cs.len();
    let start: usize = if len > 0 && cs[0] == '+' {
        1
    } else {
        0
    };
    let ghost d = unsigned_body(s@);
    assert(d =~= s@.subrange(start as int, len as int));
    if start == len {
        return None;
    }
    let mut v: u64 = 0;
    let mut over = false;
    let mut i: usize = start;
    assert(d.subrange(0, 0) =~= Seq::<char>::empty());
    while i < len
        invariant
            cs@ == s@,
            len == s@.len(),
            start <= i <= len,
            d == s@.subrange(start as int, len as int),
            d == unsigned_body(s@),
            forall|k: int| 0 <= k < i - start ==> is_digit(#[trigger] d[k]),
            !over ==> v as nat == decimal_value(d.subrange(0, i - start)),
            over ==> decimal_value(d.subrange(0, i - start)) > limit,
            v <= limit,
        decreases len - i,
    {
        let c = cs[i];
        if !('0' <= c && c <= '9') {
            assert(!is_digit(d[i - start]));
            assert(!all_digits(d));
            return None;
        }
        let ghost p = d.subrange(0, i - start);
        assert(d.subrange(0, i + 1 - start).drop_last() =~= p);
        assert(d.subrange(0, i + 1 - start).last() == c);
        let dv = (c as u32 - '0' as u32) as u64;
        assert(dv as nat == digit_value(c));
        if !over {
            let nv: u128 = v as u128 * 10 + dv as u128;
            if nv > limit as u128 {
                over = true;
            } else {
                v = nv as u64;
            }
        }
        i = i + 1;
    }
    assert(d.subrange(0, len - start) =~= d);
    if over {
        None
    } else {
        Some(v)
    }
}

proof fn lemma_trim_front_shape(s: Seq<char>) -> (k: int)
    ensures
        0 <= k <= s.len(),
        trim_front(s) == s.skip(k),
        forall|i: int| 0 <= i < k ==> is_white_space(#[trigger] s[i]),
        k < s.len() ==> !is_white_space(s[k]),
    decreases s.len(),
{
    if s.len() > 0 && is_white_space(s[0]) {
        let k1 = lemma_trim_front_shape(s.drop_first());
        assert(s.drop_first().skip(k1) =~= s.skip(k1 + 1));
        assert forall|i: int| 0 <= i < k1 + 1 implies is_white_space(#[trigger] s[i]) by {
            if i > 0 {
                assert(s[i] == s.drop_first()[i - 1]);
            }
        }
        assert(k1 + 1 < s.len() ==> s[k1 + 1] == s.drop_first()[k1]);
        k1 + 1
    } else {
        assert(s.skip(0) =~= s);
        0
    }
}

proof fn lemma_trim_back_shape(s: Seq<char>) -> (k: int)
    ensures
        0 <= k <= s.len(),
        trim_back(s) == s.take(k),
        forall|i: int| k <= i < s.len() ==> is_white_space(#[trigger] s[i]),
        k > 0 ==> !is_white_space(s[k - 1]),
    decreases s.len(),
{
    if s.len() > 0 && is_white_space(s.last()) {
        let k1 = lemma_trim_back_shape(s.drop_last());
        assert(s.drop_last().take(k1) =~= s.take(k1));
        assert forall|i: int| k1 <= i < s.len() implies is_white_space(#[trigger] s[i]) by {
            if i < s.len() - 1 {
                assert(s[i] == s.drop_last()[i]);
            }
        }
        assert(k1 > 0 ==> s[k1 - 1] == s.drop_last()[k1 - 1]);
        k1
    } else {
        assert(s.take(s.len() as int) =~= s);
        s.len() as int
    }
}

/// `trimmed(s)` is `s` with the white space removed from both ends and nothing
/// else: it is the part of `s` between positions `i` and `j`, everything
/// before `i` and from `j` on is white space, and it neither starts nor ends with
/// white space.
pub proof fn law_trimmed_is_s_without_outer_white_space(s: Seq<char>) -> (ij: (int, int))
    ensures
        0 <= ij.0 <= ij.1 <= s.len(),
        trimmed(s) == s.subrange(ij.0, ij.1),
        forall|k: int| 0 <= k < ij.0 ==> is_white_space(#[trigger] s[k]),
        forall|k: int| ij.1 <= k < s.len() ==> is_white_space(#[trigger] s[k]),
        trimmed(s).len() > 0 ==> !is_white_space(trimmed(s)[0]) && !is_white_space(trimmed(s).last()),
{
    let f = lemma_trim_front_shape(s);
    let t = s.skip(f);
    let b = lemma_trim_back_shape(t);
    assert(t.take(b) =~= s.subrange(f, f + b));
    assert forall|k: int| f + b <= k < s.len() implies is_white_space(#[trigger] s[k]) by {
        assert(s[k] == t[k - f]);
    }
    if b > 0 {
        assert(trimmed(s)[0] == t[0]);
        assert(t[0] == s[f]);
        assert(trimmed(s).last() == t[b - 1]);
    }
    (f, f + b)
}

/// `starts_with_text`, `ends_with_text` and `contains_text` say what their names
/// say: `p` is the first, the last, or some block of `p.len()` characters of `s`.
pub proof fn law_text_searches(s: Seq<char>, p: Seq<char>, i: int)
    ensures
        starts_with_text(s, p) <==> (p.len() <= s.len() && s.take(p.len() as int) == p),
        ends_with_text(s, p) <==> (p.len() <= s.len() && s.skip(s.len() - p.len()) == p),
        0 <= i && i + p.len() <= s.len() && s.subrange(i, i + p.len()) == p ==> contains_text(s, p),
        contains_text(s, p) ==> p.len() <= s.len(),
{
    if p.len() <= s.len() {
        assert(s.take(p.len() as int) =~= s.subrange(0, p.len() as int));
        assert(s.skip(s.len() - p.len()) =~= s.subrange(s.len() - p.len(), s.len() as int));
    }
    if 0 <= i && i + p.len() <= s.len() && s.subrange(i, i + p.len()) == p {
        assert(occurs_at(s, p, i));
    }
}

/// What a decimal number reads as: the value of its digits, most significant
/// first, after one optional `+`; any other character, an empty text, or a
/// value over the limit reads as nothing; and each further digit multiplies the
/// value by ten and adds the digit.
pub proof fn law_parsed_unsigned(s: Seq<char>, limit: nat, c: char)
    ensures
        parsed_unsigned(s, limit) matches Some(v) ==> v <= limit,
        s.len() > 0 && all_digits(s) && decimal_value(s) <= limit ==> parsed_unsigned(s, limit) == Some(
            decimal_value(s),
        ),
        s.len() > 0 && all_digits(s) ==> parsed_unsigned(seq!['+'] + s, limit) == parsed_unsigned(s, limit),
        s.len() == 0 ==> parsed_unsigned(s, limit) is None,
        (exists|k: int| 0 <= k < s.len() && !is_digit(s[k]) && (k > 0 || s[0] != '+')) ==> parsed_unsigned(
            s,
            limit,
        ) is None,
        is_digit(c) ==> decimal_value(s.push(c)) == 10 * decimal_value(s) + (c as int - '0' as int),
{
    assert(s.push(c).drop_last() =~= s);
    let t = seq!['+'] + s;
    assert(t.drop_first() =~= s);
    if s.len() > 0 && all_digits(s) {
        assert(s[0] != '+');
    }
    if exists|k: int| 0 <= k < s.len() && !is_digit(s[k]) && (k > 0 || s[0] != '+') {
        let k = choose|k: int| 0 <= k < s.len() && !is_digit(s[k]) && (k > 0 || s[0] != '+');
        let d = unsigned_body(s);
        if s[0] == '+' {
            assert(d[k - 1] == s[k]);
        } else {
            assert(d[k] == s[k]);
        }
    }
}

/// `parts` put back together with `sep` between neighbours.
pub open spec fn joined_by(parts: Seq<Seq<char>>, sep: char) -> Seq<char>
    decreases parts.len(),
{
    if parts.len() == 0 {
        seq![]
    } else if parts.len() == 1 {
        parts[0]
    } else {
        parts[0].push(sep) + joined_by(parts.drop_first(), sep)
    }
}

/// Splitting at most `n` ways loses nothing and cuts only at separators: the
/// pieces joined with `sep` give back `s`, there are between one and `n` of
/// them, and no piece but the last holds `sep`.
pub proof fn law_split_n_rejoins(s: Seq<char>, sep: char, n: nat)
    requires
        n >= 1,
    ensures
        joined_by(split_n(s, sep, n), sep) == s,
        1 <= split_n(s, sep, n).len() <= n,
        forall|k: int, j: int|
            0 <= k < split_n(s, sep, n).len() - 1 && 0 <= j < split_n(s, sep, n)[k].len() ==> #[trigger] split_n(
                s,
                sep,
                n,
            )[k][j] != sep,
    decreases n,
{
    if n > 1 && exists|i: int| is_first_index(s, sep, i) {
        let i = choose|i: int| is_first_index(s, sep, i);
        let rest = s.subrange(i + 1, s.len() as int);
        law_split_n_rejoins(rest, sep, (n - 1) as nat);
        let head = s.subrange(0, i);
        let parts = split_n(s, sep, n);
        let tail = split_n(rest, sep, (n - 1) as nat);
        assert(parts == seq![head] + tail);
        assert(parts.drop_first() =~= tail);
        assert(parts[0] == head);
        assert(head.push(sep) + joined_by(tail, sep) =~= s);
        assert forall|k: int, j: int| 0 <= k < parts.len() - 1 && 0 <= j < parts[k].len() implies #[trigger] parts[k][j]
            != sep by {
            if k > 0 {
                assert(parts[k] == tail[k - 1]);
            }
        }
    }
}

proof fn lemma_first_index_exists(s: Seq<char>, c: char, j: int)
    requires
        0 <= j < s.len(),
        s[j] == c,
    ensures
        exists|i: int| is_first_index(s, c, i),
    decreases j,
{
    if exists|k: int| 0 <= k < j && s[k] == c {
        let k = choose|k: int| 0 <= k < j && s[k] == c;
        lemma_first_index_exists(s, c, k);
    } else {
        assert(is_first_index(s, c, j));
    }
}

/// No line holds a line feed, and a text without one that is not empty is one
/// line, itself.
pub proof fn law_lines_hold_no_line_feed(s: Seq<char>)
    ensures
        forall|k: int, j: int|
            0 <= k < lines_of(s).len() && 0 <= j < lines_of(s)[k].len() ==> #[trigger] lines_of(s)[k][j] != '\n',
        s.len() > 0 && (forall|j: int| 0 <= j < s.len() ==> s[j] != '\n') ==> lines_of(s) == seq![s],
    decreases s.len(),
{
    if s.len() > 0 && exists|i: int| is_first_index(s, '\n', i) {
        let i = choose|i: int| is_first_index(s, '\n', i);
        let rest = s.subrange(i + 1, s.len() as int);
        law_lines_hold_no_line_feed(rest);
        let head = strip_cr(s.subrange(0, i));
        let ls = lines_of(s);
        assert(ls == seq![head] + lines_of(rest));
        assert forall|k: int, j: int| 0 <= k < ls.len() && 0 <= j < ls[k].len() implies #[trigger] ls[k][j] != '\n' by {
            if k == 0 {
                assert(ls[0] == head);
                assert(head[j] == s[j]);
            } else {
                assert(ls[k] == lines_of(rest)[k - 1]);
            }
        }
    } else if s.len() > 0 {
        assert forall|k: int, j: int| 0 <= k < lines_of(s).len() && 0 <= j < lines_of(s)[k].len() implies #[trigger] lines_of(s)[k][j]
            != '\n' by {
            if s[j] == '\n' {
                lemma_first_index_exists(s, '\n', j);
            }
        }
    }
}

} // verus!
