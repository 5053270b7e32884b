//! Character-level text operations used throughout the chat client:
//! whitespace trimming, substring search, replacement, padding and
//! concatenation, each specified over the `Seq<char>` view of strings.
use vstd::prelude::*;

verus! {

// ───────────────────────────── specifications ─────────────────────────────

/// The Unicode `White_Space` property, which `char::is_whitespace` documents.
pub open spec fn is_whitespace(c: char) -> bool {
    let u = c as u32;
    ||| 0x09 <= u <= 0x0D
    ||| u == 0x20
    ||| u == 0x85
    ||| u == 0xA0
    ||| u == 0x1680
    ||| 0x2000 <= u <= 0x200A
    ||| u == 0x2028
    ||| u == 0x2029
    ||| u == 0x202F
    ||| u == 0x205F
    ||| u == 0x3000
}

/// `s` with its leading whitespace removed.
pub open spec fn trim_start(s: Seq<char>) -> Seq<char>
    decreases s.len(),
{
    if s.len() > 0 && is_whitespace(s[0]) {
        trim_start(s.drop_first())
    } else {
        s
    }
}

/// `s` with its trailing whitespace removed.
pub open spec fn trim_end(s: Seq<char>) -> Seq<char>
    decreases s.len(),
{
    if s.len() > 0 && is_whitespace(s.last()) {
        trim_end(s.drop_last())
    } else {
        s
    }
}

/// `s` with whitespace removed at both ends (what `str::trim` returns).
pub open spec fn trim(s: Seq<char>) -> Seq<char> {
    trim_end(trim_start(s))
}

/// `s` with every trailing occurrence of `c` removed.
pub open spec fn trim_end_char(s: Seq<char>, c: char) -> Seq<char>
    decreases s.len(),
{
    if s.len() > 0 && s.last() == c {
        trim_end_char(s.drop_last(), c)
    } else {
        s
    }
}

/// `s` begins with `p`.
pub open spec fn starts_with(s: Seq<char>, p: Seq<char>) -> bool {
    p.len() <= s.len() && s.subrange(0, p.len() as int) =~= p
}

/// The first position at or after `i` where `p` occurs in `s`.
pub open spec fn find_from(s: Seq<char>, p: Seq<char>, i: nat) -> Option<nat>
    decreases s.len() - i,
{
    if i + p.len() > s.len() {
        None
    } else if s.subrange(i as int, (i + p.len()) as int) =~= p {
        Some(i)
    } else {
        find_from(s, p, i + 1)
    }
}

/// `p` occurs somewhere in `s` (what `str::contains` answers).
pub open spec fn contains(s: Seq<char>, p: Seq<char>) -> bool {
    find_from(s, p, 0) is Some
}

/// Every non-overlapping occurrence of `from` in `s`, scanned left to right,
/// replaced by `to` (what `str::replace` returns for a non-empty pattern).
pub open spec fn replace_all(s: Seq<char>, from: Seq<char>, to: Seq<char>) -> Seq<char>
    decreases s.len(),
{
    if s.len() == 0 {
        s
    } else if from.len() > 0 && starts_with(s, from) {
        to + replace_all(s.skip(from.len() as int), from, to)
    } else {
        seq![s[0]] + replace_all(s.drop_first(), from, to)
    }
}

/// The first `n` characters of `s`, or all of `s` when it is shorter.
pub open spec fn take_chars(s: Seq<char>, n: nat) -> Seq<char> {
    if s.len() <= n {
        s
    } else {
        s.take(n as int)
    }
}

/// `n` spaces.
pub open spec fn spaces(n: nat) -> Seq<char> {
    Seq::new(n, |i: int| ' ')
}

/// `s` padded on the right with spaces to at least `width` characters
/// (what the format specification `{:<width}` produces).
pub open spec fn pad_right(s: Seq<char>, width: nat) -> Seq<char> {
    if s.len() >= width {
        s
    } else {
        s + spaces((width - s.len()) as nat)
    }
}

// ─────────────────────────────── std wrappers ───────────────────────────────

/// The characters of `s`, in order.
pub(crate) fn chars_of(s: &str) -> (r: Vec<char>)
    ensures
        r@ == s@,
{
    broadcast use vstd::string::group_string_axioms;

    let mut v: Vec<char> = Vec::new();
    for c in it: s.chars()
        invariant
            it.seq() == s@,
            v@ == s@.take(it.index() as int),
    {
        v.push(c);
    }
    assert(s@.take(s@.len() as int) =~= s@);
    v
}

/// Collects characters into a `String` (std's `FromIterator<char>`): the
/// string holds exactly those characters.
#[verifier::external_body]
pub(crate) fn string_of(cs: &Vec<char>) -> (r: String)
    ensures
        r@ == cs@,
{
    cs.iter().collect()
}

// ─────────────────────────────── operations ───────────────────────────────

/// Appends `s` to `out`.
pub(crate) fn append_chars(out: &mut Vec<char>, s: &Vec<char>)
    ensures
        final(out)@ == old(out)@ + s@,
{
    let ghost start = out@;
    let mut i: usize = 0;
    while i < s.len()
        invariant
            i <= s.len(),
            out@ == start + s@.take(i as int),
        decreases s.len() - i,
    {
        out.push(s[i]);
        i = i + 1;
        assert(s@.take(i as int) =~= s@.take((i - 1) as int).push(s@[i - 1]));
    }
    assert(s@.take(i as int) =~= s@);
}

/// Appends one character to a string.
pub(crate) fn push_char(s: &mut String, c: char)
    ensures
        final(s)@ == old(s)@.push(c),
{
    let mut cs = chars_of(s.as_str());
    cs.push(c);
    *s = string_of(&cs);
}

/// Removes the last character of a string, if there is one.
pub(crate) fn pop_char(s: &mut String)
    ensures
        old(s)@.len() == 0 ==> final(s)@ == old(s)@,
        old(s)@.len() > 0 ==> final(s)@ == old(s)@.drop_last(),
{
    let mut cs = chars_of(s.as_str());
    if cs.len() > 0 {
        cs.pop();
        *s = string_of(&cs);
    }
}

/// The contents of a string, leaving it empty.
pub(crate) fn take_string(s: &mut String) -> (r: String)
    ensures
        r@ == old(s)@,
        final(s)@ == Seq::<char>::empty(),
{
    let mut r = String::new();
    std::mem::swap(&mut r, s);
    r
}

/// Appends the characters of `s` to `out`.
pub(crate) fn push_text(out: &mut Vec<char>, s: &str)
    ensures
        final(out)@ == old(out)@ + s@,
{
    let cs = chars_of(s);
    append_chars(out, &cs);
}

/// The characters of `cs` from `from` up to `to`.
pub(crate) fn sub_chars(cs: &Vec<char>, from: usize, to: usize) -> (r: Vec<char>)
    requires
        from <= to <= cs.len(),
    ensures
        r@ == cs@.subrange(from as int, to as int),
{
    let mut r: Vec<char> = Vec::new();
    let mut i: usize = from;
    while i < to
        invariant
            from <= i <= to <= cs.len(),
            r@ == cs@.subrange(from as int, i as int),
        decreases to - i,
    {
        r.push(cs[i]);
        i = i + 1;
        assert(r@ =~= cs@.subrange(from as int, i as int));
    }
    r
}

/// Concatenation of two texts.
pub fn concat2(a: &str, b: &str) -> (r: String)
    ensures
        r@ == a@ + b@,
{
    let mut v = chars_of(a);
    let w = chars_of(b);
    append_chars(&mut v, &w);
    string_of(&v)
}

/// Concatenation of three texts.
pub fn concat3(a: &str, b: &str, c: &str) -> (r: String)
    ensures
        r@ == a@ + b@ + c@,
{
    let mut v = chars_of(a);
    let w = chars_of(b);
    let x = chars_of(c);
    append_chars(&mut v, &w);
    append_chars(&mut v, &x);
    string_of(&v)
}

/// Two texts hold the same characters.
pub fn text_eq(a: &str, b: &str) -> (r: bool)
    ensures
        r == (a@ == b@),
{
    let x = chars_of(a);
    let y = chars_of(b);
    if x.len() != y.len() {
        return false;
    }
    let mut i: usize = 0;
    while i < x.len()
        invariant
            i <= x.len() == y.len(),
            x@ == a@,
            y@ == b@,
            forall|k: int| 0 <= k < i ==> x@[k] == y@[k],
        decreases x.len() - i,
    {
        if x[i] != y[i] {
            assert(a@[i as int] != b@[i as int]);
            return false;
        }
        i = i + 1;
    }
    assert(x@ =~= y@);
    true
}

/// Whether `c` is whitespace in the sense of `char::is_whitespace`.
pub fn is_whitespace_char(c: char) -> (r: bool)
    ensures
        r == is_whitespace(c),
{
    let u = c as u32;
    (0x09 <= u && u <= 0x0D) || u == 0x20 || u == 0x85 || u == 0xA0 || u == 0x1680 || (0x2000
        <= u && u <= 0x200A) || u == 0x2028 || u == 0x2029 || u == 0x202F || u == 0x205F || u
        == 0x3000
}

proof fn lemma_trim_start_step(s: Seq<char>, i: int)
    requires
        0 <= i < s.len(),
        is_whitespace(s[i]),
    ensures
        trim_start(s.skip(i)) == trim_start(s.skip(i + 1)),
{
    assert(s.skip(i).drop_first() =~= s.skip(i + 1));
}

proof fn lemma_trim_end_step(s: Seq<char>, i: int, j: int)
    requires
        0 <= i < j <= s.len(),
        is_whitespace(s[j - 1]),
    ensures
        trim_end(s.subrange(i, j)) == trim_end(s.subrange(i, j - 1)),
{
    assert(s.subrange(i, j).drop_last() =~= s.subrange(i, j - 1));
}

/// `s` with leading and trailing whitespace removed (`str::trim`).
pub fn trim_text(s: &str) -> (r: String)
    ensures
        r@ == trim(s@),
{
    let cs = chars_of(s);
    let n = cs.len();
    let mut i: usize = 0;
    assert(cs@.skip(0) =~= cs@);
    while i < n && is_whitespace_char(cs[i])
        invariant
            i <= n == cs@.len(),
            trim_start(cs@) == trim_start(cs@.skip(i as int)),
        decreases n - i,
    {
        proof {
            lemma_trim_start_step(cs@, i as int);
        }
        i = i + 1;
    }
    assert(trim_start(cs@.skip(i as int)) == cs@.skip(i as int));
    assert(cs@.skip(i as int) =~= cs@.subrange(i as int, n as int));
    let mut j: usize = n;
    while j > i && is_whitespace_char(cs[j - 1])
        invariant
            i <= j <= n == cs@.len(),
            trim(cs@) == trim_end(cs@.subrange(i as int, j as int)),
        decreases j,
    {
        proof {
            lemma_trim_end_step(cs@, i as int, j as int);
        }
        j = j - 1;
    }
    let r = sub_chars(&cs, i, j);
    string_of(&r)
}

/// `s` with every trailing `c` removed (`str::trim_end_matches` with a char).
pub fn trim_end_matches_char(s: &str, c: char) -> (r: String)
    ensures
        r@ == trim_end_char(s@, c),
{
    let cs = chars_of(s);
    let mut j: usize = cs.len();
    assert(cs@.subrange(0, j as int) =~= cs@);
    while j > 0 && cs[j - 1] == c
        invariant
            j <= cs@.len(),
            trim_end_char(s@, c) == trim_end_char(cs@.subrange(0, j as int), c),
        decreases j,
    {
        assert(cs@.subrange(0, j as int).drop_last() =~= cs@.subrange(0, j - 1));
        j = j - 1;
    }
    let r = sub_chars(&cs, 0, j);
    string_of(&r)
}

/// Whether `p` occurs in `cs` at position `i`.
fn occurs_at(cs: &Vec<char>, p: &Vec<char>, i: usize) -> (r: bool)
    requires
        i + p.len() <= cs.len(),
    ensures
        r == (cs@.subrange(i as int, i + p.len()) =~= p@),
{
    let mut k: usize = 0;
    while k < p.len()
        invariant
            k <= p.len(),
            i + p.len() <= cs.len(),
            forall|m: int| 0 <= m < k ==> cs@[i + m] == p@[m],
        decreases p.len() - k,
    {
        if cs[i + k] != p[k] {
            assert(cs@.subrange(i as int, i + p.len())[k as int] != p@[k as int]);
            return false;
        }
        k = k + 1;
    }
    true
}

/// The first position of `p` in `cs` at or after `start`.
fn find_chars_from(cs: &Vec<char>, p: &Vec<char>, start: usize) -> (r: Option<usize>)
    requires
        start <= cs.len(),
    ensures
        r matches Some(k) ==> find_from(cs@, p@, start as nat) == Some(k as nat),
        r is None ==> find_from(cs@, p@, start as nat) is None,
{
    let mut i: usize = start;
    while i <= cs.len() && p.len() <= cs.len() - i
        invariant
            start <= i,
            find_from(cs@, p@, start as nat) == find_from(cs@, p@, i as nat),
        decreases cs.len() + 1 - i,
    {
        if occurs_at(cs, p, i) {
            return Some(i);
        }
        i = i + 1;
    }
    None
}

/// A position found by `find_from` is a place where `p` occurs, at or after
/// the start of the search.
pub proof fn lemma_find_from_found(s: Seq<char>, p: Seq<char>, i: nat)
    ensures
        find_from(s, p, i) matches Some(k) ==> i <= k && k + p.len() <= s.len()
            && s.subrange(k as int, (k + p.len()) as int) =~= p,
    decreases s.len() - i,
{
    if i + p.len() <= s.len() && !(s.subrange(i as int, (i + p.len()) as int) =~= p) {
        lemma_find_from_found(s, p, i + 1);
    }
}

/// A search from `i` finds something when `p` occurs at some `k >= i`.
pub proof fn lemma_find_from_complete(s: Seq<char>, p: Seq<char>, i: nat, k: nat)
    requires
        i <= k,
        k + p.len() <= s.len(),
        s.subrange(k as int, (k + p.len()) as int) =~= p,
    ensures
        find_from(s, p, i) is Some,
    decreases k - i,
{
    if i < k && !(s.subrange(i as int, (i + p.len()) as int) =~= p) {
        lemma_find_from_complete(s, p, i + 1, k);
    }
}

/// Text that occurs in `s` also occurs in any text that holds `s`.
pub proof fn lemma_contains_within(a: Seq<char>, s: Seq<char>, b: Seq<char>, p: Seq<char>)
    requires
        contains(s, p),
    ensures
        contains(a + s + b, p),
{
    lemma_find_from_found(s, p, 0);
    let k = find_from(s, p, 0)->0;
    let t = a + s + b;
    assert(t.subrange((a.len() + k) as int, (a.len() + k + p.len()) as int) =~= s.subrange(
        k as int,
        (k + p.len()) as int,
    ));
    lemma_find_from_complete(t, p, 0, a.len() + k);
}

/// Whether `p` occurs in `s` (`str::contains` with a string pattern).
pub fn contains_text(s: &str, p: &str) -> (r: bool)
    ensures
        r == contains(s@, p@),
{
    let cs = chars_of(s);
    let ps = chars_of(p);
    find_chars_from(&cs, &ps, 0).is_some()
}

/// The position of the first occurrence of `p` in `s`, if any.
pub fn find_text(s: &str, p: &str) -> (r: Option<usize>)
    ensures
        r matches Some(k) ==> find_from(s@, p@, 0) == Some(k as nat),
        r is None ==> find_from(s@, p@, 0) is None,
{
    let cs = chars_of(s);
    let ps = chars_of(p);
    find_chars_from(&cs, &ps, 0)
}

/// `s` with every occurrence of `from` replaced by `to` (`str::replace`).
pub fn replace_text(s: &str, from: &str, to: &str) -> (r: String)
    requires
        from@.len() > 0,
    ensures
        r@ == replace_all(s@, from@, to@),
{
    let cs = chars_of(s);
    let f = chars_of(from);
    let t = chars_of(to);
    let n = cs.len();
    let mut out: Vec<char> = Vec::new();
    let mut i: usize = 0;
    assert(cs@.skip(0) =~= cs@);
    while i < n
        invariant
            i <= n == cs@.len(),
            f@ == from@,
            f@.len() > 0,
            replace_all(cs@, f@, t@) == out@ + replace_all(cs@.skip(i as int), f@, t@),
        decreases n - i,
    {
        let ghost rest = cs@.skip(i as int);
        if f.len() <= n - i && occurs_at(&cs, &f, i) {
            assert(rest.subrange(0, f@.len() as int) =~= cs@.subrange(i as int, i + f@.len()));
            assert(rest.skip(f@.len() as int) =~= cs@.skip(i + f@.len()));
            append_chars(&mut out, &t);
            i = i + f.len();
        } else {
            assert(!starts_with(rest, f@)) by {
                if f@.len() <= rest.len() {
                    assert(rest.subrange(0, f@.len() as int) =~= cs@.subrange(
                        i as int,
                        i + f@.len(),
                    ));
                }
            }
            assert(rest.drop_first() =~= cs@.skip(i + 1));
            assert(rest[0] == cs@[i as int]);
            let ghost before = out@;
            out.push(cs[i]);
            assert(out@ =~= before + seq![cs@[i as int]]);
            i = i + 1;
        }
    }
    assert(cs@.skip(n as int) =~= Seq::<char>::empty());
    assert(out@ + Seq::<char>::empty() =~= out@);
    string_of(&out)
}

/// The first `n` characters of `s` (`s.chars().take(n).collect()`).
pub fn take_text(s: &str, n: usize) -> (r: String)
    ensures
        r@ == take_chars(s@, n as nat),
{
    let cs = chars_of(s);
    if cs.len() <= n {
        string_of(&cs)
    } else {
        let r = sub_chars(&cs, 0, n);
        string_of(&r)
    }
}

/// `s` padded with spaces on the right to `width` characters (`{:<width}`).
pub fn pad_right_text(s: &str, width: usize) -> (r: String)
    ensures
        r@ == pad_right(s@, width as nat),
{
    let mut cs = chars_of(s);
    if cs.len() >= width {
        return string_of(&cs);
    }
    let ghost start = cs@;
    let mut k: usize = cs.len();
    while k < width
        invariant
            start.len() <= k <= width,
            cs@ =~= start + spaces((k - start.len()) as nat),
        decreases width - k,
    {
        cs.push(' ');
        k = k + 1;
    }
    string_of(&cs)
}

} // verus!
