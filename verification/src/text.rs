//! Character-level text handling shared by the parsers and formatters:
//! whitespace classification, trimming, prefixes, decimal rendering.
use vstd::prelude::*;
use vstd::string::*;

verus! {

/// The Unicode `White_Space` property, the set that `char::is_whitespace` accepts.
pub open spec fn is_ws(c: char) -> bool {
    let u = c as u32;
    ||| 0x09 <= u <= 0x0D
    ||| u == 0x20
    ||| u == 0x85
    ||| u == 0xA0
    ||| u == 0x1680
    ||| 0x2000 <= u <= 0x200A
    ||| u == 0x2028
    ||| u == 0x2029
    ||| u == 0x202F
    ||| u == 0x205F
    ||| u == 0x3000
}

/// `s` without its leading whitespace.
pub open spec fn trim_start(s: Seq<char>) -> Seq<char>
    decreases s.len(),
{
    if s.len() > 0 && is_ws(s[0]) {
        trim_start(s.drop_first())
    } else {
        s
    }
}

/// `s` without its trailing whitespace.
pub open spec fn trim_end(s: Seq<char>) -> Seq<char>
    decreases s.len(),
{
    if s.len() > 0 && is_ws(s.last()) {
        trim_end(s.drop_last())
    } else {
        s
    }
}

/// `s` without whitespace at either end, as `str::trim` gives it.
pub open spec fn trim(s: Seq<char>) -> Seq<char> {
    trim_end(trim_start(s))
}

/// `s` without any leading run of `c`, as `str::trim_start_matches(c)` gives it.
pub open spec fn strip_leading(s: Seq<char>, c: char) -> Seq<char>
    decreases s.len(),
{
    if s.len() > 0 && s[0] == c {
        strip_leading(s.drop_first(), c)
    } else {
        s
    }
}

/// `p` is a prefix of `s`.
pub open spec fn starts_with(s: Seq<char>, p: Seq<char>) -> bool {
    p.len() <= s.len() && s.subrange(0, p.len() as int) == p
}

/// `p` occurs somewhere inside `s`.
pub open spec fn contains_seq(s: Seq<char>, p: Seq<char>) -> bool {
    exists|i: int| 0 <= i && i + p.len() <= s.len() && #[trigger] s.subrange(i, i + p.len()) == p
}

/// Whether `c` is whitespace, as `char::is_whitespace` decides it.
pub fn is_whitespace(c: char) -> (r: bool)
    ensures
        r == is_ws(c),
{
    let u = c as u32;
    (0x09 <= u && u <= 0x0D) || u == 0x20 || u == 0x85 || u == 0xA0 || u == 0x1680 || (0x2000 <= u
        && u <= 0x200A) || u == 0x2028 || u == 0x2029 || u == 0x202F || u == 0x205F || u == 0x3000
}

/// The characters of `s`, in order.
pub fn chars_of(s: &str) -> (v: Vec<char>)
    ensures
        v@ == s@,
{
    let n = s.unicode_len();
    let mut v: Vec<char> = Vec::new();
    for i in 0..n
        invariant
            n == s@.len(),
            v@ == s@.subrange(0, i as int),
    {
        v.push(s.get_char(i));
        assert(v@ =~= s@.subrange(0, i + 1));
    }
    assert(v@ =~= s@);
    v
}

/// Builds a `String` from a sequence of characters; this calls std's
/// `FromIterator<char>` for `String`, and the contract states that the string
/// holds exactly those characters in order.
#[verifier::external_body]
pub fn string_from_chars(chars: &Vec<char>) -> (s: String)
    ensures
        s@ == chars@,
{
    chars.iter().collect()
}

/// The first index in `lo..hi` where `t` has no whitespace, or `hi`.
pub fn skip_leading_ws(t: &Vec<char>, lo: usize, hi: usize) -> (a: usize)
    requires
        lo <= hi <= t.len(),
    ensures
        lo <= a <= hi,
        trim_start(t@.subrange(lo as int, hi as int)) == t@.subrange(a as int, hi as int),
{
    let mut a = lo;
    while a < hi && is_whitespace(t[a])
        invariant
            lo <= a <= hi,
            hi <= t.len(),
            trim_start(t@.subrange(lo as int, hi as int)) == trim_start(
                t@.subrange(a as int, hi as int),
            ),
        decreases hi - a,
    {
        assert(t@.subrange(a as int, hi as int).drop_first() =~= t@.subrange(a + 1, hi as int));
        a = a + 1;
    }
    a
}

/// The end of `t[lo..hi]` once its trailing whitespace is cut off.
pub fn skip_trailing_ws(t: &Vec<char>, lo: usize, hi: usize) -> (b: usize)
    requires
        lo <= hi <= t.len(),
    ensures
        lo <= b <= hi,
        trim_end(t@.subrange(lo as int, hi as int)) == t@.subrange(lo as int, b as int),
{
    let mut b = hi;
    while b > lo && is_whitespace(t[b - 1])
        invariant
            lo <= b <= hi,
            hi <= t.len(),
            trim_end(t@.subrange(lo as int, hi as int)) == trim_end(
                t@.subrange(lo as int, b as int),
            ),
        decreases b - lo,
    {
        assert(t@.subrange(lo as int, b as int).drop_last() =~= t@.subrange(lo as int, b - 1));
        b = b - 1;
    }
    b
}

/// The first index in `lo..hi` where `t` does not hold `c`, or `hi`.
pub fn skip_leading_char(t: &Vec<char>, lo: usize, hi: usize, c: char) -> (a: usize)
    requires
        lo <= hi <= t.len(),
    ensures
        lo <= a <= hi,
        strip_leading(t@.subrange(lo as int, hi as int), c) == t@.subrange(a as int, hi as int),
{
    let mut a = lo;
    while a < hi && t[a] == c
        invariant
            lo <= a <= hi,
            hi <= t.len(),
            strip_leading(t@.subrange(lo as int, hi as int), c) == strip_leading(
                t@.subrange(a as int, hi as int),
                c,
            ),
        decreases hi - a,
    {
        assert(t@.subrange(a as int, hi as int).drop_first() =~= t@.subrange(a + 1, hi as int));
        a = a + 1;
    }
    a
}

/// The bounds of `t[lo..hi]` once whitespace is cut off at both ends.
pub fn trim_range(t: &Vec<char>, lo: usize, hi: usize) -> (r: (usize, usize))
    requires
        lo <= hi <= t.len(),
    ensures
        lo <= r.0 <= r.1 <= hi,
        trim(t@.subrange(lo as int, hi as int)) == t@.subrange(r.0 as int, r.1 as int),
{
    let a = skip_leading_ws(t, lo, hi);
    let b = skip_trailing_ws(t, a, hi);
    (a, b)
}

/// The characters `t[lo..hi]` as a vector of their own.
pub fn copy_range(t: &Vec<char>, lo: usize, hi: usize) -> (v: Vec<char>)
    requires
        lo <= hi <= t.len(),
    ensures
        v@ == t@.subrange(lo as int, hi as int),
{
    let mut v: Vec<char> = Vec::new();
    for k in lo..hi
        invariant
            hi <= t.len(),
            v@ == t@.subrange(lo as int, k as int),
    {
        v.push(t[k]);
        assert(v@ =~= t@.subrange(lo as int, k + 1));
    }
    v
}

/// Whether `t[lo..hi]` begins with the characters of `p`.
pub fn range_starts_with(t: &Vec<char>, lo: usize, hi: usize, p: &Vec<char>) -> (r: bool)
    requires
        lo <= hi <= t.len(),
    ensures
        r == starts_with(t@.subrange(lo as int, hi as int), p@),
{
    if p.len() > hi - lo {
        return false;
    }
    let mut k: usize = 0;
    while k < p.len()
        invariant
            k <= p.len(),
            p.len() <= hi - lo,
            hi <= t.len(),
            forall|j: int| 0 <= j < k ==> t@[lo + j] == p@[j],
        decreases p.len() - k,
    {
        if t[lo + k] != p[k] {
            assert(t@.subrange(lo as int, hi as int).subrange(0, p@.len() as int)[k as int]
                != p@[k as int]);
            return false;
        }
        k = k + 1;
    }
    assert(t@.subrange(lo as int, hi as int).subrange(0, p@.len() as int) =~= p@);
    true
}

/// The decimal digit character for `d`, which is below ten.
pub open spec fn digit_char(d: nat) -> char {
    seq!['0', '1', '2', '3', '4', '5', '6', '7', '8', '9'][d as int]
}

/// The decimal rendering of `n`, without sign or leading zeros, as `{}` prints it.
pub open spec fn decimal(n: nat) -> Seq<char>
    decreases n,
{
    if n < 10 {
        seq![digit_char(n)]
    } else {
        decimal(n / 10).push(digit_char(n % 10))
    }
}

/// The digit character for `d`.
pub fn digit(d: u64) -> (c: char)
    requires
        d < 10,
    ensures
        c == digit_char(d as nat),
{
    match d {
        0 => '0',
        1 => '1',
        2 => '2',
        3 => '3',
        4 => '4',
        5 => '5',
        6 => '6',
        7 => '7',
        8 => '8',
        _ => '9',
    }
}

/// Appends the decimal rendering of `n` to `out`.
pub fn push_decimal(out: &mut Vec<char>, n: u64)
    ensures
        final(out)@ == old(out)@ + decimal(n as nat),
    decreases n,
{
    if n < 10 {
        out.push(digit(n));
    } else {
        push_decimal(out, n / 10);
        out.push(digit(n % 10));
    }
    assert(final(out)@ =~= old(out)@ + decimal(n as nat));
}

/// The decimal rendering of `n` as a string.
pub fn decimal_string(n: u64) -> (s: String)
    ensures
        s@ == decimal(n as nat),
{
    let mut v: Vec<char> = Vec::new();
    push_decimal(&mut v, n);
    assert(v@ =~= decimal(n as nat));
    string_from_chars(&v)
}

/// The parts joined with `sep` between consecutive parts.
pub open spec fn join_with(parts: Seq<Seq<char>>, sep: Seq<char>) -> Seq<char>
    decreases parts.len(),
{
    if parts.len() == 0 {
        Seq::<char>::empty()
    } else if parts.len() == 1 {
        parts[0]
    } else {
        join_with(parts.drop_last(), sep) + sep + parts.last()
    }
}

/// The views of a list of strings.
pub open spec fn string_views(v: Seq<String>) -> Seq<Seq<char>> {
    v.map_values(|s: String| s@)
}

/// The strings of `parts`, with `sep` between consecutive ones.
pub fn join_strings(parts: &Vec<String>, sep: &str) -> (s: String)
    ensures
        s@ == join_with(string_views(parts@), sep@),
{
    let mut s = String::new();
    let ghost pv = string_views(parts@);
    for i in 0..parts.len()
        invariant
            pv == string_views(parts@),
            s@ == join_with(pv.take(i as int), sep@),
    {
        assert(pv.take(i + 1).drop_last() =~= pv.take(i as int));
        assert(pv.take(i + 1).last() == parts@[i as int]@);
        if i != 0 {
            s.append(sep);
        } else {
            assert(pv.take(0) =~= Seq::<Seq<char>>::empty());
            assert(s@ =~= Seq::<char>::empty());
        }
        s.append(parts[i].as_str());
        assert(s@ =~= join_with(pv.take(i + 1), sep@));
    }
    assert(pv.take(parts.len() as int) =~= pv);
    s
}

/// At most the first `n` characters of `s`.
pub open spec fn take_chars(s: Seq<char>, n: nat) -> Seq<char> {
    if s.len() <= n {
        s
    } else {
        s.take(n as int)
    }
}

/// At most the first `n` characters of `s`, as `s.chars().take(n)` collects them.
pub fn truncate_chars(s: &str, n: usize) -> (r: String)
    ensures
        r@ == take_chars(s@, n as nat),
{
    let t = chars_of(s);
    let end = if t.len() <= n { t.len() } else { n };
    let v = copy_range(&t, 0, end);
    assert(t@.subrange(0, end as int) =~= take_chars(s@, n as nat));
    string_from_chars(&v)
}

/// Whether `p` occurs somewhere inside `s`, as `str::contains` decides it.
pub fn contains_str(s: &str, p: &str) -> (b: bool)
    ensures
        b == contains_seq(s@, p@),
{
    let t = chars_of(s);
    let q = chars_of(p);
    if q.len() > t.len() {
        return false;
    }
    if q.len() == 0 {
        assert(s@.subrange(0int, 0int + p@.len()) =~= p@);
        return true;
    }
    let last = t.len() - q.len();
    let mut i: usize = 0;
    while i <= last
        invariant
            t@ == s@,
            q@ == p@,
            0 < q.len() <= t.len(),
            last == t.len() - q.len(),
            i <= last + 1,
            forall|j: int| 0 <= j < i ==> #[trigger] t@.subrange(j, j + q@.len()) != q@,
        decreases last + 1 - i,
    {
        if range_starts_with(&t, i, t.len(), &q) {
            assert(t@.subrange(i as int, t.len() as int).subrange(0, q@.len() as int) =~= t@.subrange(
                i as int,
                i + q@.len(),
            ));
            return true;
        }
        assert(t@.subrange(i as int, t.len() as int).subrange(0, q@.len() as int) =~= t@.subrange(
            i as int,
            i + q@.len(),
        ));
        i = i + 1;
    }
    assert forall|j: int| 0 <= j && j + p@.len() <= s@.len() implies #[trigger] s@.subrange(j, j + p@.len()) != p@ by {
        assert(j < i);
    }
    false
}

/// `s` with whitespace cut off at both ends, as `str::trim` gives it.
pub fn trim_whitespace(s: &str) -> (r: String)
    ensures
        r@ == trim(s@),
{
    let t = chars_of(s);
    let (a, b) = trim_range(&t, 0, t.len());
    assert(t@.subrange(0, t.len() as int) =~= s@);
    string_from_chars(&copy_range(&t, a, b))
}

/// `trim_start` removes only a prefix: the result is a suffix of `s`.
pub proof fn lemma_trim_start_is_suffix(s: Seq<char>)
    ensures
        trim_start(s).len() <= s.len(),
        trim_start(s) == s.subrange(s.len() - trim_start(s).len(), s.len() as int),
        trim_start(s).len() > 0 ==> !is_ws(trim_start(s)[0]),
    decreases s.len(),
{
    if s.len() > 0 && is_ws(s[0]) {
        lemma_trim_start_is_suffix(s.drop_first());
        assert(s.drop_first().subrange(
            s.drop_first().len() - trim_start(s).len(),
            s.drop_first().len() as int,
        ) =~= s.subrange(s.len() - trim_start(s).len(), s.len() as int));
    } else {
        assert(s.subrange(0, s.len() as int) =~= s);
    }
}

/// `trim_end` removes only a suffix: the result is a prefix of `s`.
pub proof fn lemma_trim_end_is_prefix(s: Seq<char>)
    ensures
        trim_end(s).len() <= s.len(),
        trim_end(s) == s.subrange(0, trim_end(s).len() as int),
        trim_end(s).len() > 0 ==> !is_ws(trim_end(s).last()),
    decreases s.len(),
{
    if s.len() > 0 && is_ws(s.last()) {
        lemma_trim_end_is_prefix(s.drop_last());
        assert(s.drop_last().subrange(0, trim_end(s).len() as int) =~= s.subrange(
            0,
            trim_end(s).len() as int,
        ));
    } else {
        assert(s.subrange(0, s.len() as int) =~= s);
    }
}

/// `strip_leading` removes only a prefix: the result is a suffix of `s`.
pub proof fn lemma_strip_leading_is_suffix(s: Seq<char>, c: char)
    ensures
        strip_leading(s, c).len() <= s.len(),
        strip_leading(s, c) == s.subrange(s.len() - strip_leading(s, c).len(), s.len() as int),
    decreases s.len(),
{
    if s.len() > 0 && s[0] == c {
        lemma_strip_leading_is_suffix(s.drop_first(), c);
        assert(s.drop_first().subrange(
            s.drop_first().len() - strip_leading(s, c).len(),
            s.drop_first().len() as int,
        ) =~= s.subrange(s.len() - strip_leading(s, c).len(), s.len() as int));
    } else {
        assert(s.subrange(0, s.len() as int) =~= s);
    }
}

} // verus!
