//! Conversions between strings and character sequences, and the small text
//! operations the rest of the crate is built from.
//!
//! Every function here is specified over `Seq<char>`, the view of `str` and
//! `String`.
use vstd::prelude::*;

verus! {

/// `String::push` appends one character and leaves the rest of the string as
/// it was.
pub assume_specification[ String::push ](s: &mut String, c: char)
    ensures
        final(s)@ == old(s)@.push(c),
;

/// The characters of `s`, in order.
pub fn chars_of(s: &str) -> (out: Vec<char>)
    ensures
        out@ == s@,
{
    let mut out: Vec<char> = Vec::new();
    for c in it: s.chars()
        invariant
            out@ == it.seq().take(it.index() as int),
    {
        out.push(c);
    }
    out
}

/// The string made of the characters `v[from..to]`.
pub fn string_of(v: &[char], from: usize, to: usize) -> (out: String)
    requires
        from <= to <= v.len(),
    ensures
        out@ == v@.subrange(from as int, to as int),
{
    let mut out = String::new();
    let mut i: usize = from;
    while i < to
        invariant
            from <= i <= to <= v.len(),
            out@ == v@.subrange(from as int, i as int),
        decreases to - i,
    {
        out.push(v[i]);
        i += 1;
    }
    out
}

/// `a` followed by `b`.
pub fn join(a: &str, b: &str) -> (out: String)
    ensures
        out@ == a@ + b@,
{
    let mut out = a.to_owned();
    let bv = chars_of(b);
    let mut i: usize = 0;
    while i < bv.len()
        invariant
            i <= bv.len(),
            bv@ == b@,
            out@ == a@ + b@.take(i as int),
        decreases bv.len() - i,
    {
        out.push(bv[i]);
        assert(out@ =~= a@ + b@.take(i + 1));
        i += 1;
    }
    assert(b@.take(b@.len() as int) =~= b@);
    out
}

/// Whether `a` and `b` hold the same characters.
pub fn same(a: &str, b: &str) -> (r: bool)
    ensures
        r == (a@ == b@),
{
    let av = chars_of(a);
    let bv = chars_of(b);
    if av.len() != bv.len() {
        return false;
    }
    let mut i: usize = 0;
    while i < av.len()
        invariant
            i <= av.len() == bv.len(),
            av@ == a@,
            bv@ == b@,
            forall|j: int| 0 <= j < i ==> av@[j] == bv@[j],
        decreases av.len() - i,
    {
        if av[i] != bv[i] {
            return false;
        }
        i += 1;
    }
    assert(a@ =~= b@);
    true
}

/// Whether `s` begins with `prefix`.
pub fn starts_with(s: &str, prefix: &str) -> (b: bool)
    ensures
        b == prefix@.is_prefix_of(s@),
{
    let sv = chars_of(s);
    let pv = chars_of(prefix);
    if pv.len() > sv.len() {
        return false;
    }
    let mut i: usize = 0;
    while i < pv.len()
        invariant
            i <= pv.len() <= sv.len(),
            sv@ == s@,
            pv@ == prefix@,
            forall|j: int| 0 <= j < i ==> sv@[j] == pv@[j],
        decreases pv.len() - i,
    {
        if sv[i] != pv[i] {
            assert(s@.subrange(0, prefix@.len() as int)[i as int] != prefix@[i as int]);
            return false;
        }
        i += 1;
    }
    assert(prefix@ =~= s@.subrange(0, prefix@.len() as int));
    true
}

/// Whether the first `end` characters of `s` end with `suffix`.
fn ends_with_at(s: &[char], end: usize, suffix: &[char]) -> (b: bool)
    requires
        end <= s.len(),
    ensures
        b == suffix@.is_suffix_of(s@.take(end as int)),
{
    if suffix.len() > end {
        return false;
    }
    let ghost cur = s@.take(end as int);
    let off: usize = end - suffix.len();
    let mut i: usize = 0;
    while i < suffix.len()
        invariant
            i <= suffix.len() <= end <= s.len(),
            off == end - suffix.len(),
            cur == s@.take(end as int),
            forall|j: int| 0 <= j < i ==> s@[off + j] == suffix@[j],
        decreases suffix.len() - i,
    {
        if s[off + i] != suffix[i] {
            assert(cur.subrange(off as int, end as int)[i as int] != suffix@[i as int]);
            return false;
        }
        i += 1;
    }
    assert(suffix@ =~= cur.subrange(off as int, end as int));
    true
}

/// Whether `s` ends with `suffix`.
pub fn ends_with(s: &str, suffix: &str) -> (b: bool)
    ensures
        b == suffix@.is_suffix_of(s@),
{
    let sv = chars_of(s);
    let pv = chars_of(suffix);
    assert(sv@.take(sv@.len() as int) =~= s@);
    ends_with_at(sv.as_slice(), sv.len(), pv.as_slice())
}

/// `s` without its last `n` characters.
pub open spec fn drop_tail(s: Seq<char>, n: nat) -> Seq<char>
    recommends
        n <= s.len(),
{
    s.take(s.len() - n)
}

/// `s` with `suffix` removed from its end as often as it occurs there.
pub open spec fn trim_end(s: Seq<char>, suffix: Seq<char>) -> Seq<char>
    decreases s.len(),
{
    if suffix.len() > 0 && suffix.is_suffix_of(s) {
        trim_end(drop_tail(s, suffix.len()), suffix)
    } else {
        s
    }
}

/// `s` with every `from` turned into `to`.
pub open spec fn replace_char(s: Seq<char>, from: char, to: char) -> Seq<char> {
    Seq::new(s.len(), |i: int| if s[i] == from { to } else { s[i] })
}

/// Removes `suffix` from the end of `s` until `s` no longer ends with it.
pub fn trim_end_matches(s: &str, suffix: &str) -> (out: String)
    ensures
        out@ == trim_end(s@, suffix@),
{
    let sv = chars_of(s);
    let pv = chars_of(suffix);
    let mut end: usize = sv.len();
    assert(s@.take(end as int) =~= s@);
    while pv.len() > 0 && ends_with_at(sv.as_slice(), end, pv.as_slice())
        invariant
            end <= sv.len(),
            sv@ == s@,
            pv@ == suffix@,
            trim_end(s@, suffix@) == trim_end(s@.take(end as int), suffix@),
        decreases end,
    {
        assert(drop_tail(s@.take(end as int), suffix@.len()) =~= s@.take(end - pv.len()));
        end = end - pv.len();
    }
    string_of(sv.as_slice(), 0, end)
}

/// Copies `s`, writing `to` wherever `from` stands.
pub fn replace(s: &str, from: char, to: char) -> (out: String)
    ensures
        out@ == replace_char(s@, from, to),
{
    let sv = chars_of(s);
    let mut out = String::new();
    let mut i: usize = 0;
    while i < sv.len()
        invariant
            i <= sv.len(),
            sv@ == s@,
            out@ == replace_char(s@, from, to).take(i as int),
        decreases sv.len() - i,
    {
        let c = sv[i];
        if c == from {
            out.push(to);
        } else {
            out.push(c);
        }
        assert(out@ =~= replace_char(s@, from, to).take(i + 1));
        i += 1;
    }
    assert(out@ =~= replace_char(s@, from, to));
    out
}

/// The decimal digit for `d`.
pub open spec fn decimal_digit(d: nat) -> char
    recommends
        d < 10,
{
    ((48 + d) as u8) as char
}

/// `n` in decimal, without leading zeros.
pub open spec fn decimal(n: nat) -> Seq<char>
    decreases n,
{
    if n < 10 {
        seq![decimal_digit(n)]
    } else {
        decimal(n / 10).push(decimal_digit(n % 10))
    }
}

/// Writes `n` in decimal.
pub fn decimal_string(n: u128) -> (out: String)
    ensures
        out@ == decimal(n as nat),
{
    let mut digits: Vec<char> = Vec::new();
    let mut m: u128 = n;
    loop
        invariant_except_break
            decimal(n as nat) == decimal(m as nat) + digits@,
        ensures
            digits@ == decimal(n as nat),
        decreases m,
    {
        let d: u8 = (m % 10) as u8;
        let ghost before = digits@;
        digits.insert(0, (48 + d) as char);
        assert(digits@ =~= seq![decimal_digit(d as nat)] + before);
        if m < 10 {
            assert(decimal(m as nat) + before =~= digits@);
            break;
        }
        assert(decimal(m as nat) + before =~= decimal((m / 10) as nat) + digits@);
        m = m / 10;
    }
    assert(digits@.subrange(0, digits@.len() as int) =~= digits@);
    string_of(digits.as_slice(), 0, digits.len())
}

/// Whether `c` is white space: a character with the Unicode property
/// `White_Space`.
pub open spec fn is_space(c: char) -> bool {
    let u = c as u32;
    ||| 0x09 <= u <= 0x0D
    ||| u == 0x20
    ||| u == 0x85
    ||| u == 0xA0
    ||| u == 0x1680
    ||| 0x2000 <= u <= 0x200A
    ||| u == 0x2028
    ||| u == 0x2029
    ||| u == 0x202F
    ||| u == 0x205F
    ||| u == 0x3000
}

/// Whether `c` is white space.
pub fn is_whitespace(c: char) -> (b: bool)
    ensures
        b == is_space(c),
{
    let u: u32 = c as u32;
    (0x09 <= u && u <= 0x0D) || u == 0x20 || u == 0x85 || u == 0xA0 || u == 0x1680 || (0x2000
        <= u && u <= 0x200A) || u == 0x2028 || u == 0x2029 || u == 0x202F || u == 0x205F || u
        == 0x3000
}

/// How many characters at the start of `s` are white space (`blank`) or are
/// not (`!blank`).
pub open spec fn run(s: Seq<char>, blank: bool) -> nat
    decreases s.len(),
{
    if s.len() > 0 && is_space(s[0]) == blank {
        1 + run(s.drop_first(), blank)
    } else {
        0
    }
}

/// The `n`-th of the words that white space parts `s` into, counted from
/// zero; empty where `s` has no such word.
pub open spec fn word(s: Seq<char>, n: nat) -> Seq<char>
    decreases n,
{
    let t = s.skip(run(s, true) as int);
    let w = run(t, false);
    if n == 0 {
        t.take(w as int)
    } else {
        word(t.skip(w as int), (n - 1) as nat)
    }
}

/// How many characters stand in `s` before the first `sep`.
pub open spec fn until(s: Seq<char>, sep: char) -> nat
    decreases s.len(),
{
    if s.len() > 0 && s[0] != sep {
        1 + until(s.drop_first(), sep)
    } else {
        0
    }
}

/// The `n`-th of the fields that `sep` parts `s` into, counted from zero;
/// empty where `s` has no such field.
pub open spec fn field(s: Seq<char>, sep: char, n: nat) -> Seq<char>
    decreases n,
{
    let k = until(s, sep);
    if n == 0 {
        s.take(k as int)
    } else if k < s.len() {
        field(s.skip(k as int + 1), sep, (n - 1) as nat)
    } else {
        Seq::empty()
    }
}

/// The end of the run of white space, or of other characters, that starts at
/// `start`.
fn run_end(v: &[char], start: usize, blank: bool) -> (end: usize)
    requires
        start <= v.len(),
    ensures
        start <= end <= v.len(),
        end - start == run(v@.skip(start as int), blank),
{
    let mut i: usize = start;
    while i < v.len() && is_whitespace(v[i]) == blank
        invariant
            start <= i <= v.len(),
            run(v@.skip(start as int), blank) == (i - start) + run(v@.skip(i as int), blank),
        decreases v.len() - i,
    {
        assert(v@.skip(i as int).drop_first() =~= v@.skip(i + 1));
        i += 1;
    }
    i
}

/// The end of the field that starts at `start`.
fn field_end(v: &[char], start: usize, sep: char) -> (end: usize)
    requires
        start <= v.len(),
    ensures
        start <= end <= v.len(),
        end - start == until(v@.skip(start as int), sep),
{
    let mut i: usize = start;
    while i < v.len() && v[i] != sep
        invariant
            start <= i <= v.len(),
            until(v@.skip(start as int), sep) == (i - start) + until(v@.skip(i as int), sep),
        decreases v.len() - i,
    {
        assert(v@.skip(i as int).drop_first() =~= v@.skip(i + 1));
        i += 1;
    }
    i
}

/// The `n`-th word of `s`, counted from zero, where white space parts the
/// words; empty where `s` has no such word.
pub fn nth_word(s: &str, n: usize) -> (out: String)
    ensures
        out@ == word(s@, n as nat),
{
    let v = chars_of(s);
    let mut pos: usize = 0;
    let mut k: usize = 0;
    assert(s@.skip(0) =~= s@);
    loop
        invariant
            pos <= v.len(),
            k <= n,
            v@ == s@,
            word(s@, n as nat) == word(s@.skip(pos as int), (n - k) as nat),
        decreases n - k,
    {
        let from = run_end(v.as_slice(), pos, true);
        let to = run_end(v.as_slice(), from, false);
        let ghost rest = s@.skip(pos as int);
        assert(rest.skip(run(rest, true) as int) =~= s@.skip(from as int));
        if k == n {
            assert(s@.skip(from as int).take(to - from) =~= s@.subrange(from as int, to as int));
            return string_of(v.as_slice(), from, to);
        }
        assert(s@.skip(from as int).skip(to - from) =~= s@.skip(to as int));
        pos = to;
        k += 1;
    }
}

/// The `n`-th field of `s`, counted from zero, where `sep` parts the fields;
/// empty where `s` has no such field.
pub fn nth_field(s: &str, sep: char, n: usize) -> (out: String)
    ensures
        out@ == field(s@, sep, n as nat),
{
    let v = chars_of(s);
    let mut pos: usize = 0;
    let mut k: usize = 0;
    assert(s@.skip(0) =~= s@);
    loop
        invariant
            pos <= v.len(),
            k <= n,
            v@ == s@,
            field(s@, sep, n as nat) == field(s@.skip(pos as int), sep, (n - k) as nat),
        decreases n - k,
    {
        let end = field_end(v.as_slice(), pos, sep);
        if k == n {
            assert(s@.skip(pos as int).take(end - pos) =~= s@.subrange(pos as int, end as int));
            return string_of(v.as_slice(), pos, end);
        }
        if end == v.len() {
            return String::new();
        }
        assert(s@.skip(pos as int).skip(end - pos + 1) =~= s@.skip(end + 1));
        pos = end + 1;
        k += 1;
    }
}

} // verus!
