//! Character-level string operations used to assemble scripts, messages and
//! paths, each stated over the `Seq<char>` view of the strings involved.
use vstd::prelude::*;

verus! {

/// Appends one character to a string: `String::push`.
/// Claimed: the string afterwards is the old one followed by `c`.
#[verifier::external_body]
pub(crate) fn push_char(s: &mut String, c: char)
    ensures
        final(s)@ == old(s)@.push(c),
{
    s.push(c);
}

/// What `String::from_utf8_lossy` makes of these bytes.
pub uninterp spec fn utf8_lossy_text(bytes: Seq<u8>) -> Seq<char>;

/// `String::from_utf8_lossy`. Claimed, from its documentation: the result is
/// determined by the bytes, and bytes that are valid UTF-8 decode to exactly
/// the characters they encode (so ASCII bytes decode one character each).
/// What replaces invalid sequences is left to the name `utf8_lossy_text`.
#[verifier::external_body]
pub(crate) fn utf8_lossy(bytes: &[u8]) -> (res: String)
    ensures
        res@ == utf8_lossy_text(bytes@),
        vstd::utf8::valid_utf8(bytes@) ==> res@ == vstd::utf8::decode_utf8(bytes@),
        (forall|i: int| 0 <= i < bytes@.len() ==> bytes@[i] < 128) ==> res@.len() == bytes@.len()
            && forall|i: int| 0 <= i < bytes@.len() ==> #[trigger] res@[i] == (bytes@[i] as char),
{
    String::from_utf8_lossy(bytes).into_owned()
}

/// The characters of `s`, in order.
pub fn chars_of(s: &str) -> (res: Vec<char>)
    ensures
        res@ == s@,
{
    let mut res: Vec<char> = Vec::new();
    for c in it: s.chars()
        invariant
            res@ == it.seq().take(it.index()),
            it.seq() == s@,
    {
        res.push(c);
    }
    res
}

/// A string made of the characters of `v`, in order.
pub fn string_of(v: &Vec<char>) -> (res: String)
    ensures
        res@ == v@,
{
    let mut res = String::new();
    for i in 0..v.len()
        invariant
            res@ == v@.take(i as int),
    {
        push_char(&mut res, v[i]);
        assert(v@.take(i + 1) == v@.take(i as int).push(v@[i as int]));
    }
    assert(v@.take(v.len() as int) == v@);
    res
}

/// Appends `t` to `s`.
pub fn append_str(s: &mut String, t: &str)
    ensures
        final(s)@ == old(s)@ + t@,
{
    s.append(t);
}

/// A fresh string holding the characters of `t`.
pub fn owned(t: &str) -> (res: String)
    ensures
        res@ == t@,
{
    let mut res = String::new();
    append_str(&mut res, t);
    res
}

/// `n` occurs in `h` starting at position `i`.
pub open spec fn occurs_at(h: Seq<char>, n: Seq<char>, i: int) -> bool {
    &&& 0 <= i
    &&& i + n.len() <= h.len()
    &&& h.subrange(i, i + n.len()) == n
}

/// `n` occurs somewhere in `h` (`str::contains` with a string pattern).
pub open spec fn has_substring(h: Seq<char>, n: Seq<char>) -> bool {
    exists|i: int| occurs_at(h, n, i)
}

/// Whether `n` occurs in `h` at position `i`, on character vectors.
pub fn occurs_at_exec(h: &Vec<char>, n: &Vec<char>, i: usize) -> (res: bool)
    ensures
        res == occurs_at(h@, n@, i as int),
{
    if i > h.len() || n.len() > h.len() - i {
        return false;
    }
    let mut j: usize = 0;
    while j < n.len()
        invariant
            i + n.len() <= h.len(),
            j <= n.len(),
            forall|k: int| 0 <= k < j ==> h@[i + k] == n@[k],
        decreases n.len() - j,
    {
        if h[i + j] != n[j] {
            assert(h@.subrange(i as int, i + n.len())[j as int] != n@[j as int]);
            return false;
        }
        j = j + 1;
    }
    assert(h@.subrange(i as int, i + n.len()) =~= n@);
    true
}

/// `str::contains` with a string pattern.
pub fn contains_str(h: &str, n: &str) -> (res: bool)
    ensures
        res == has_substring(h@, n@),
{
    let hv = chars_of(h);
    let nv = chars_of(n);
    if nv.len() > hv.len() {
        assert(!has_substring(h@, n@));
        return false;
    }
    let last = hv.len() - nv.len();
    let mut i: usize = 0;
    loop
        invariant
            last == hv.len() - nv.len(),
            i <= last,
            hv@ == h@,
            nv@ == n@,
            forall|k: int| 0 <= k < i ==> !occurs_at(h@, n@, k),
        ensures
            forall|k: int| 0 <= k <= last ==> !occurs_at(h@, n@, k),
        decreases last - i,
    {
        if occurs_at_exec(&hv, &nv, i) {
            return true;
        }
        if i == last {
            break;
        }
        i = i + 1;
    }
    assert forall|k: int| !occurs_at(h@, n@, k) by {
        if k > last {
            assert(k + n@.len() > h@.len());
        }
    }
    false
}

/// `str::contains` with a character pattern.
pub fn contains_char(h: &str, c: char) -> (res: bool)
    ensures
        res == h@.contains(c),
{
    let hv = chars_of(h);
    let mut i: usize = 0;
    while i < hv.len()
        invariant
            hv@ == h@,
            forall|k: int| 0 <= k < i ==> hv@[k] != c,
        decreases hv.len() - i,
    {
        if hv[i] == c {
            assert(h@[i as int] == c);
            return true;
        }
        i = i + 1;
    }
    false
}

/// String equality on views.
pub fn str_eq(a: &str, b: &str) -> (res: bool)
    ensures
        res == (a@ == b@),
{
    let av = chars_of(a);
    let bv = chars_of(b);
    if av.len() != bv.len() {
        return false;
    }
    let mut i: usize = 0;
    while i < av.len()
        invariant
            av@ == a@,
            bv@ == b@,
            av.len() == bv.len(),
            forall|k: int| 0 <= k < i ==> av@[k] == bv@[k],
        decreases av.len() - i,
    {
        if av[i] != bv[i] {
            return false;
        }
        i = i + 1;
    }
    assert(a@ =~= b@);
    true
}

/// `str::replace`: every non-overlapping occurrence of `from`, scanned from
/// the left, is replaced by `to`.
pub open spec fn replace_all(s: Seq<char>, from: Seq<char>, to: Seq<char>) -> Seq<char>
    decreases s.len(),
{
    if from.len() == 0 || s.len() == 0 {
        s
    } else if occurs_at(s, from, 0) {
        to + replace_all(s.skip(from.len() as int), from, to)
    } else {
        seq![s[0]] + replace_all(s.skip(1), from, to)
    }
}

/// Replacing a pattern by itself leaves a string unchanged.
pub proof fn lemma_replace_self(s: Seq<char>, p: Seq<char>)
    ensures
        replace_all(s, p, p) == s,
    decreases s.len(),
{
    if p.len() == 0 || s.len() == 0 {
    } else if occurs_at(s, p, 0) {
        lemma_replace_self(s.skip(p.len() as int), p);
        assert(s =~= p + s.skip(p.len() as int));
    } else {
        lemma_replace_self(s.skip(1), p);
        assert(s =~= seq![s[0]] + s.skip(1));
    }
}

/// `str::replace` with a non-empty pattern.
pub fn replace_str(s: &str, from: &str, to: &str) -> (res: String)
    requires
        from@.len() > 0,
    ensures
        res@ == replace_all(s@, from@, to@),
{
    let sv = chars_of(s);
    let fv = chars_of(from);
    let mut out = String::new();
    let mut i: usize = 0;
    assert(s@.skip(0) =~= s@);
    while i < sv.len()
        invariant
            sv@ == s@,
            fv@ == from@,
            fv.len() > 0,
            i <= sv.len(),
            out@ + replace_all(s@.skip(i as int), from@, to@) == replace_all(s@, from@, to@),
        decreases sv.len() - i,
    {
        let ghost rest = s@.skip(i as int);
        if occurs_at_exec(&sv, &fv, i) {
            assert(occurs_at(rest, from@, 0)) by {
                assert(rest.subrange(0, from@.len() as int) =~= s@.subrange(
                    i as int,
                    i + from@.len(),
                ));
            }
            assert(rest.skip(from@.len() as int) =~= s@.skip(i + fv.len()));
            let ghost before = out@;
            append_str(&mut out, to);
            assert(out@ + replace_all(rest.skip(from@.len() as int), from@, to@) =~= before + (to@
                + replace_all(rest.skip(from@.len() as int), from@, to@)));
            i = i + fv.len();
        } else {
            assert(!occurs_at(rest, from@, 0)) by {
                if occurs_at(rest, from@, 0) {
                    assert(rest.subrange(0, from@.len() as int) =~= s@.subrange(
                        i as int,
                        i + from@.len(),
                    ));
                }
            }
            assert(rest.skip(1) =~= s@.skip(i + 1));
            assert(rest[0] == sv@[i as int]);
            let ghost before = out@;
            push_char(&mut out, sv[i]);
            assert(out@ + replace_all(rest.skip(1), from@, to@) =~= before + (seq![rest[0]]
                + replace_all(rest.skip(1), from@, to@)));
            i = i + 1;
        }
    }
    assert(s@.skip(i as int).len() == 0);
    out
}

/// The decimal digit character for `d`.
pub open spec fn digit_char(d: nat) -> char {
    if d == 0 {
        '0'
    } else if d == 1 {
        '1'
    } else if d == 2 {
        '2'
    } else if d == 3 {
        '3'
    } else if d == 4 {
        '4'
    } else if d == 5 {
        '5'
    } else if d == 6 {
        '6'
    } else if d == 7 {
        '7'
    } else if d == 8 {
        '8'
    } else {
        '9'
    }
}

/// Decimal notation of a natural number, most significant digit first, no
/// leading zeros.
pub open spec fn nat_text(n: nat) -> Seq<char>
    decreases n,
{
    if n < 10 {
        seq![digit_char(n)]
    } else {
        nat_text(n / 10).push(digit_char(n % 10))
    }
}

/// Decimal notation of an integer, as `Display` writes it: a `-` before
/// negative numbers.
pub open spec fn int_text(n: int) -> Seq<char> {
    if n < 0 {
        seq!['-'] + nat_text((-n) as nat)
    } else {
        nat_text(n as nat)
    }
}

fn digit(d: u64) -> (c: char)
    requires
        d < 10,
    ensures
        c == digit_char(d as nat),
{
    if d == 0 {
        '0'
    } else if d == 1 {
        '1'
    } else if d == 2 {
        '2'
    } else if d == 3 {
        '3'
    } else if d == 4 {
        '4'
    } else if d == 5 {
        '5'
    } else if d == 6 {
        '6'
    } else if d == 7 {
        '7'
    } else if d == 8 {
        '8'
    } else {
        '9'
    }
}

/// Decimal notation of an unsigned integer.
pub fn u64_text(n: u64) -> (res: String)
    ensures
        res@ == nat_text(n as nat),
{
    let mut m: u64 = n;
    let mut acc: Vec<char> = Vec::new();
    loop
        invariant_except_break
            nat_text(n as nat) == nat_text(m as nat) + acc@,
        ensures
            nat_text(n as nat) == acc@,
        decreases m,
    {
        let d = digit(m % 10);
        let ghost before = acc@;
        acc.insert(0, d);
        assert(acc@ =~= seq![d] + before);
        if m < 10 {
            assert(nat_text(n as nat) =~= acc@);
            break;
        }
        assert(nat_text(m as nat) == nat_text((m / 10) as nat).push(digit_char((m % 10) as nat)));
        m = m / 10;
    }
    string_of(&acc)
}

/// Decimal notation of a signed integer.
pub fn i64_text(n: i64) -> (res: String)
    ensures
        res@ == int_text(n as int),
{
    if n < 0 {
        let mag: u64 = if n == i64::MIN {
            9_223_372_036_854_775_808u64
        } else {
            (-n) as u64
        };
        let digits = u64_text(mag);
        let mut res = String::new();
        push_char(&mut res, '-');
        append_str(&mut res, digits.as_str());
        res
    } else {
        u64_text(n as u64)
    }
}

/// Whether `c` has the Unicode White_Space property, as `char::is_whitespace`
/// tests: tab through carriage return, space, next line, no-break space,
/// Ogham space mark, the spaces from en quad to hair space, line and
/// paragraph separator, narrow no-break space, medium mathematical space and
/// ideographic space.
pub open spec fn is_white_space(c: char) -> bool {
    ||| ('\u{9}' <= c && c <= '\u{d}')
    ||| c == ' '
    ||| c == '\u{85}'
    ||| c == '\u{a0}'
    ||| c == '\u{1680}'
    ||| ('\u{2000}' <= c && c <= '\u{200a}')
    ||| c == '\u{2028}'
    ||| c == '\u{2029}'
    ||| c == '\u{202f}'
    ||| c == '\u{205f}'
    ||| c == '\u{3000}'
}

/// `char::is_whitespace`.
pub(crate) fn is_whitespace(c: char) -> (res: bool)
    ensures
        res == is_white_space(c),
{
    ('\u{9}' <= c && c <= '\u{d}') || c == ' ' || c == '\u{85}' || c == '\u{a0}' || c
        == '\u{1680}' || ('\u{2000}' <= c && c <= '\u{200a}') || c == '\u{2028}' || c
        == '\u{2029}' || c == '\u{202f}' || c == '\u{205f}' || c == '\u{3000}'
}

/// How many characters of white space `s` starts with.
pub open spec fn leading_white(s: Seq<char>) -> nat
    decreases s.len(),
{
    if s.len() > 0 && is_white_space(s[0]) {
        1 + leading_white(s.skip(1))
    } else {
        0
    }
}

/// How many characters of white space `s` ends with.
pub open spec fn trailing_white(s: Seq<char>) -> nat
    decreases s.len(),
{
    if s.len() > 0 && is_white_space(s.last()) {
        1 + trailing_white(s.drop_last())
    } else {
        0
    }
}

/// `str::trim`: `s` without its leading and trailing white space.
pub open spec fn trimmed(s: Seq<char>) -> Seq<char> {
    let rest = s.skip(leading_white(s) as int);
    rest.take(rest.len() - trailing_white(rest))
}

proof fn lemma_leading_bound(s: Seq<char>)
    ensures
        leading_white(s) <= s.len(),
    decreases s.len(),
{
    if s.len() > 0 && is_white_space(s[0]) {
        lemma_leading_bound(s.skip(1));
    }
}

proof fn lemma_trailing_bound(s: Seq<char>)
    ensures
        trailing_white(s) <= s.len(),
    decreases s.len(),
{
    if s.len() > 0 && is_white_space(s.last()) {
        lemma_trailing_bound(s.drop_last());
    }
}

/// `str::trim`.
pub fn trim(s: &str) -> (res: String)
    ensures
        res@ == trimmed(s@),
{
    let v = chars_of(s);
    let mut start: usize = 0;
    assert(s@.skip(0) =~= s@);
    while start < v.len() && is_whitespace(v[start])
        invariant
            v@ == s@,
            start <= v.len(),
            leading_white(s@) == start + leading_white(s@.skip(start as int)),
        decreases v.len() - start,
    {
        assert(s@.skip(start as int).skip(1) =~= s@.skip(start + 1));
        start = start + 1;
    }
    let ghost rest = s@.skip(start as int);
    assert(leading_white(rest) == 0);
    let mut end: usize = v.len();
    assert(rest.take(end - start) =~= rest);
    while end > start && is_whitespace(v[end - 1])
        invariant
            v@ == s@,
            start <= end <= v.len(),
            rest == s@.skip(start as int),
            trailing_white(rest) == (v.len() - end) + trailing_white(
                rest.take(end - start),
            ),
        decreases end - start,
    {
        let ghost r = rest.take(end - start);
        assert(r.last() == v@[end - 1]);
        assert(r.drop_last() =~= rest.take(end - 1 - start));
        end = end - 1;
    }
    let ghost r = rest.take(end - start);
    assert(trailing_white(r) == 0);
    assert(rest.take(rest.len() as int) =~= rest);
    let mut res = String::new();
    let mut i: usize = start;
    while i < end
        invariant
            v@ == s@,
            start <= i <= end <= v.len(),
            res@ == s@.subrange(start as int, i as int),
        decreases end - i,
    {
        push_char(&mut res, v[i]);
        assert(s@.subrange(start as int, i + 1) =~= s@.subrange(start as int, i as int).push(
            v@[i as int],
        ));
        i = i + 1;
    }
    assert(rest.take(rest.len() - trailing_white(rest)) =~= s@.subrange(
        start as int,
        end as int,
    ));
    res
}

/// `str::strip_prefix`: what follows `prefix` in `s`, when `s` starts
/// with it.
pub fn strip_prefix(s: &str, prefix: &str) -> (res: Option<String>)
    ensures
        occurs_at(s@, prefix@, 0) ==> (res matches Some(r) && r@ == s@.skip(prefix@.len() as int)),
        !occurs_at(s@, prefix@, 0) ==> res is None,
{
    let v = chars_of(s);
    let p = chars_of(prefix);
    if !occurs_at_exec(&v, &p, 0) {
        return None;
    }
    let mut res = String::new();
    let mut i: usize = p.len();
    while i < v.len()
        invariant
            v@ == s@,
            p.len() <= i <= v.len(),
            res@ == s@.subrange(p.len() as int, i as int),
        decreases v.len() - i,
    {
        push_char(&mut res, v[i]);
        assert(s@.subrange(p.len() as int, i + 1) =~= s@.subrange(p.len() as int, i as int).push(
            v@[i as int],
        ));
        i = i + 1;
    }
    assert(s@.subrange(p.len() as int, v.len() as int) =~= s@.skip(prefix@.len() as int));
    Some(res)
}

} // verus!
