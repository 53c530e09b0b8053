//! Small operations on text.

use vstd::prelude::*;
use vstd::string::StrSliceExecFns;
use vstd::string::StringExecFns;

verus! {

/// The part of `s` before its first `c`; all of `s` where there is no `c`.
pub open spec fn before(s: Seq<char>, c: char) -> Seq<char>
    decreases s.len(),
{
    if s.len() == 0 || s[0] == c {
        Seq::empty()
    } else {
        seq![s[0]] + before(s.drop_first(), c)
    }
}

/// [`before`] is the one prefix without `c` that ends at a `c` or at the end.
pub proof fn before_is(s: Seq<char>, c: char, n: int)
    requires
        0 <= n <= s.len(),
        forall|i: int| 0 <= i < n ==> s[i] != c,
        n < s.len() ==> s[n] == c,
    ensures
        before(s, c) == s.take(n),
    decreases n,
{
    if n > 0 {
        before_is(s.drop_first(), c, n - 1);
        assert(seq![s[0]] + s.drop_first().take(n - 1) =~= s.take(n));
    } else {
        assert(s.take(0) =~= Seq::<char>::empty());
    }
}

/// What follows a `c` makes no difference to what stands before the first one.
pub proof fn before_ends_at_the_first(s: Seq<char>, c: char, rest: Seq<char>)
    ensures
        before(s + seq![c] + rest, c) == before(s, c),
    decreases s.len(),
{
    let all = s + seq![c] + rest;
    if s.len() > 0 && s[0] != c {
        before_ends_at_the_first(s.drop_first(), c, rest);
        assert(all.drop_first() =~= s.drop_first() + seq![c] + rest);
    }
}

/// How many characters of `s` come before its first `c`.
pub(crate) fn find_char(s: &str, c: char) -> (n: usize)
    ensures
        n == before(s@, c).len(),
        n <= s@.len(),
        before(s@, c) == s@.take(n as int),
        n < s@.len() <==> s@.contains(c),
        n < s@.len() ==> s@[n as int] == c,
{
    let len: usize = s.unicode_len();
    let mut n: usize = 0;
    for ch in it: s.chars()
        invariant
            it.seq() == s@,
            n == it.index(),
            len == s@.len(),
            forall|i: int| 0 <= i < n ==> s@[i] != c,
    {
        if ch == c {
            proof {
                before_is(s@, c, n as int);
            }
            return n;
        }
        n += 1;
    }
    proof {
        before_is(s@, c, n as int);
    }
    n
}

/// Whether two texts are equal.
pub(crate) fn same_text(a: &str, b: &str) -> (r: bool)
    ensures
        r == (a@ == b@),
{
    a.to_owned() == b.to_owned()
}

/// An ASCII capital letter as the small letter; any other character as it is.
pub open spec fn ascii_lower(c: char) -> char {
    if 'A' <= c <= 'Z' {
        (c as u32 + 32) as char
    } else {
        c
    }
}

/// [`ascii_lower`] on every character.
pub open spec fn ascii_lower_text(s: Seq<char>) -> Seq<char> {
    s.map_values(|c: char| ascii_lower(c))
}

/// Whether every character is an ASCII one.
pub open spec fn all_ascii(s: Seq<char>) -> bool {
    forall|i: int| 0 <= i < s.len() ==> (#[trigger] s[i] as u32) < 128
}

/// Whether two texts are equal but for the case of ASCII letters.
pub open spec fn same_but_for_ascii_case(a: Seq<char>, b: Seq<char>) -> bool {
    ascii_lower_text(a) == ascii_lower_text(b)
}

/// Texts that are equal but for the case of ASCII letters stay so when they are
/// cut at the first `c`, where `c` is no letter.
pub proof fn before_keeps_case_equality(s: Seq<char>, t: Seq<char>, c: char)
    requires
        same_but_for_ascii_case(s, t),
        !('A' <= c <= 'Z'),
        !('a' <= c <= 'z'),
    ensures
        same_but_for_ascii_case(before(s, c), before(t, c)),
    decreases s.len(),
{
    let ls = ascii_lower_text(s);
    let lt = ascii_lower_text(t);
    assert(ls.len() == s.len() && lt.len() == t.len());
    if s.len() > 0 {
        assert(ls[0] == lt[0]);
        assert(ascii_lower(s[0]) == ascii_lower(t[0]));
        if s[0] != c {
            let u = s.drop_first();
            let v = t.drop_first();
            assert(ascii_lower_text(u) =~= ls.drop_first());
            assert(ascii_lower_text(v) =~= lt.drop_first());
            before_keeps_case_equality(u, v, c);
            assert(ascii_lower_text(before(s, c)) =~= seq![ls[0]] + ascii_lower_text(before(u, c)));
            assert(ascii_lower_text(before(t, c)) =~= seq![lt[0]] + ascii_lower_text(before(v, c)));
        }
    }
}

/// The code of `c` with ASCII capitals made small.
fn lower_code(c: char) -> (r: u32)
    ensures
        r == ascii_lower(c) as u32,
{
    if 'A' <= c && c <= 'Z' {
        c as u32 + 32
    } else {
        c as u32
    }
}

/// The characters of `s`.
fn chars_of(s: &str) -> (r: Vec<char>)
    ensures
        r@ == s@,
{
    let mut r: Vec<char> = Vec::new();
    for c in it: s.chars()
        invariant
            it.seq() == s@,
            r@ == s@.take(it.index() as int),
    {
        r.push(c);
    }
    assert(s@.take(s@.len() as int) == s@);
    r
}

/// Whether `a` and `b` are equal but for the case of ASCII letters.
pub(crate) fn eq_ignore_ascii_case(a: &str, b: &str) -> (r: bool)
    ensures
        r == same_but_for_ascii_case(a@, b@),
{
    let xs = chars_of(a);
    let ys = chars_of(b);
    let ghost fa = ascii_lower_text(a@);
    let ghost fb = ascii_lower_text(b@);
    if xs.len() != ys.len() {
        assert(fa.len() != fb.len());
        return false;
    }
    for i in 0..xs.len()
        invariant
            xs@ == a@,
            ys@ == b@,
            xs.len() == ys.len(),
            fa == ascii_lower_text(a@),
            fb == ascii_lower_text(b@),
            forall|j: int| 0 <= j < i ==> fa[j] == fb[j],
    {
        if lower_code(xs[i]) != lower_code(ys[i]) {
            assert(fa[i as int] != fb[i as int]);
            return false;
        }
    }
    assert(fa =~= fb);
    true
}

/// Whether `part` stands somewhere in `s`.
pub open spec fn has_text(s: Seq<char>, part: Seq<char>) -> bool {
    exists|i: int| 0 <= i <= s.len() - part.len() && #[trigger] s.subrange(i, i + part.len()) == part
}

/// Whether `part` stands somewhere in `s`.
pub(crate) fn contains_text(s: &str, part: &str) -> (r: bool)
    ensures
        r == has_text(s@, part@),
{
    let xs = chars_of(s);
    let ps = chars_of(part);
    if ps.len() == 0 {
        assert(s@.subrange(0, 0int + part@.len()) =~= part@);
        return true;
    }
    if ps.len() > xs.len() {
        return false;
    }
    for i in 0..(xs.len() - ps.len() + 1)
        invariant
            xs@ == s@,
            ps@ == part@,
            0 < ps.len() <= xs.len(),
            forall|k: int|
                0 <= k < i ==> #[trigger] s@.subrange(k, k + part@.len()) != part@,
    {
        let mut n: usize = 0;
        while n < ps.len() && xs[i + n] == ps[n]
            invariant
                xs@ == s@,
                ps@ == part@,
                n <= ps.len(),
                i + ps.len() <= xs.len(),
                forall|k: int| 0 <= k < n ==> #[trigger] part@[k] == s@[i + k],
            decreases ps.len() - n,
        {
            n += 1;
        }
        let ghost here = s@.subrange(i as int, i + part@.len());
        if n == ps.len() {
            assert(here =~= part@);
            return true;
        }
        assert(here[n as int] != part@[n as int]);
    }
    false
}

/// `a` followed by `b`.
pub(crate) fn join2(a: &str, b: &str) -> (r: String)
    ensures
        r@ == a@ + b@,
{
    let mut r = a.to_owned();
    r.append(b);
    r
}

/// `a`, `b`, `c` and `d` in a row.
pub(crate) fn join4(a: &str, b: &str, c: &str, d: &str) -> (r: String)
    ensures
        r@ == a@ + b@ + c@ + d@,
{
    let mut r = join2(a, b);
    r.append(c);
    r.append(d);
    r
}

/// The characters with the Unicode property White_Space.
pub open spec fn white_space(c: char) -> bool {
    let n = c as u32;
    ||| 0x09 <= n <= 0x0d
    ||| n == 0x20
    ||| n == 0x85
    ||| n == 0xa0
    ||| n == 0x1680
    ||| 0x2000 <= n <= 0x200a
    ||| n == 0x2028
    ||| n == 0x2029
    ||| n == 0x202f
    ||| n == 0x205f
    ||| n == 0x3000
}

/// `char::is_whitespace`: whether a character has the Unicode property
/// White_Space, as PropList.txt of the Unicode Character Database gives it.
pub assume_specification[ char::is_whitespace ](c: char) -> (r: bool)
    ensures
        r == white_space(c),
;

/// `s` without the white space that it begins with.
pub open spec fn trim_start(s: Seq<char>) -> Seq<char>
    decreases s.len(),
{
    if s.len() > 0 && white_space(s[0]) {
        trim_start(s.drop_first())
    } else {
        s
    }
}

/// `s` without the white space that it ends with.
pub open spec fn trim_end(s: Seq<char>) -> Seq<char>
    decreases s.len(),
{
    if s.len() > 0 && white_space(s.last()) {
        trim_end(s.drop_last())
    } else {
        s
    }
}

/// `s` without the white space around it.
pub open spec fn trimmed(s: Seq<char>) -> Seq<char> {
    trim_end(trim_start(s))
}

/// Trimming leaves nothing to trim: no white space at either end.
pub proof fn trimmed_ends(s: Seq<char>)
    ensures
        trimmed(s).len() > 0 ==> !white_space(trimmed(s)[0]) && !white_space(trimmed(s).last()),
        trimmed(trimmed(s)) == trimmed(s),
{
    let t = trim_start(s);
    lemma_trim_start_end(s);
    lemma_trim_end_end(t);
    if trim_end(t).len() > 0 {
        assert(trim_end(t)[0] == t[0]);
    }
}

proof fn lemma_trim_start_end(s: Seq<char>)
    ensures
        trim_start(s).len() > 0 ==> !white_space(trim_start(s)[0]),
    decreases s.len(),
{
    if s.len() > 0 && white_space(s[0]) {
        lemma_trim_start_end(s.drop_first());
    }
}

proof fn lemma_trim_end_end(s: Seq<char>)
    ensures
        trim_end(s).len() > 0 ==> !white_space(trim_end(s).last()),
        trim_end(s).len() <= s.len(),
        trim_end(s) == s.take(trim_end(s).len() as int),
    decreases s.len(),
{
    if s.len() > 0 && white_space(s.last()) {
        lemma_trim_end_end(s.drop_last());
        assert(s.drop_last().take(trim_end(s).len() as int) =~= s.take(trim_end(s).len() as int));
    } else {
        assert(s.take(s.len() as int) =~= s);
    }
}

/// White space put around a text is trimmed away again.
pub proof fn trimmed_padded(before: Seq<char>, s: Seq<char>, after: Seq<char>)
    requires
        forall|i: int| 0 <= i < before.len() ==> white_space(#[trigger] before[i]),
        forall|i: int| 0 <= i < after.len() ==> white_space(#[trigger] after[i]),
    ensures
        trimmed(before + s + after) == trimmed(s),
{
    assert(before + s + after =~= before + (s + after));
    lemma_trim_start_padded(before, s + after);
    lemma_trim_padded_end(s, after);
}

proof fn lemma_trim_start_padded(before: Seq<char>, s: Seq<char>)
    requires
        forall|i: int| 0 <= i < before.len() ==> white_space(#[trigger] before[i]),
    ensures
        trim_start(before + s) == trim_start(s),
    decreases before.len(),
{
    if before.len() > 0 {
        lemma_trim_start_padded(before.drop_first(), s);
        assert((before + s).drop_first() =~= before.drop_first() + s);
    } else {
        assert(before + s =~= s);
    }
}

proof fn lemma_trim_end_padded(s: Seq<char>, after: Seq<char>)
    requires
        forall|i: int| 0 <= i < after.len() ==> white_space(#[trigger] after[i]),
    ensures
        trim_end(s + after) == trim_end(s),
    decreases after.len(),
{
    if after.len() > 0 {
        lemma_trim_end_padded(s, after.drop_last());
        assert((s + after).drop_last() =~= s + after.drop_last());
    } else {
        assert(s + after =~= s);
    }
}

proof fn lemma_trim_padded_end(s: Seq<char>, after: Seq<char>)
    requires
        forall|i: int| 0 <= i < after.len() ==> white_space(#[trigger] after[i]),
    ensures
        trimmed(s + after) == trimmed(s),
    decreases s.len(),
{
    if s.len() > 0 && white_space(s[0]) {
        lemma_trim_padded_end(s.drop_first(), after);
        assert((s + after).drop_first() =~= s.drop_first() + after);
    } else if s.len() > 0 {
        lemma_trim_end_padded(s, after);
    } else {
        assert(s + after =~= after);
        assert(after + Seq::<char>::empty() =~= after);
        lemma_trim_start_padded(after, Seq::empty());
    }
}

/// `s` without the white space around it.
pub(crate) fn trim(s: &str) -> (r: &str)
    ensures
        r@ == trimmed(s@),
{
    let xs = chars_of(s);
    let mut from: usize = 0;
    assert(s@.skip(0) == s@);
    while from < xs.len() && xs[from].is_whitespace()
        invariant
            xs@ == s@,
            from <= xs.len(),
            trim_start(s@) == trim_start(s@.skip(from as int)),
        decreases xs.len() - from,
    {
        assert(s@.skip(from as int).drop_first() == s@.skip(from + 1));
        from += 1;
    }
    let ghost rest = s@.skip(from as int);
    assert(trim_start(s@) == rest);
    let mut to: usize = xs.len();
    assert(rest == s@.subrange(from as int, to as int));
    while from < to && xs[to - 1].is_whitespace()
        invariant
            xs@ == s@,
            from <= to <= xs.len(),
            trim_end(rest) == trim_end(s@.subrange(from as int, to as int)),
        decreases to,
    {
        assert(s@.subrange(from as int, to as int).drop_last() == s@.subrange(
            from as int,
            to - 1,
        ));
        to -= 1;
    }
    s.substring_char(from, to)
}

/// What `str::to_lowercase` makes of a text.
pub uninterp spec fn lowercase(s: Seq<char>) -> Seq<char>;

/// `str::to_lowercase`: the Unicode lower case of a text is a function of the
/// text. It is that of the text with its ASCII capital letters made small. Of
/// an ASCII text it is just that text; of other texts nothing more is said.
pub assume_specification[ str::to_lowercase ](s: &str) -> (r: String)
    ensures
        r@ == lowercase(s@),
        r@ == lowercase(ascii_lower_text(s@)),
        all_ascii(s@) ==> r@ == ascii_lower_text(s@),
;

} // verus!
