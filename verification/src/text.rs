//! Character-sequence utilities shared by the parsers and matchers of this crate.
use vstd::prelude::*;

verus! {

/// `String::push` appends one character.
pub assume_specification[ String::push ](s: &mut String, ch: char)
    ensures
        final(s)@ == old(s)@.push(ch),
;

/// The characters of a string slice, in order.
pub fn chars_of(s: &str) -> (v: Vec<char>)
    ensures
        v@ == s@,
{
    let mut v: Vec<char> = Vec::new();
    for c in it: s.chars()
        invariant
            v@ == it.seq().take(it.index() as int),
    {
        v.push(c);
    }
    v
}

/// A string holding exactly the given characters.
pub fn string_of(v: &[char]) -> (s: String)
    ensures
        s@ == v@,
{
    let mut s = String::new();
    let mut i: usize = 0;
    while i < v.len()
        invariant
            i <= v.len(),
            s@ == v@.take(i as int),
        decreases v.len() - i,
    {
        s.push(v[i]);
        i += 1;
        assert(v@.take(i as int) == v@.take((i - 1) as int).push(v@[i - 1]));
    }
    assert(v@.take(v.len() as int) == v@);
    s
}

/// Whether `n` occurs in `h` starting at position `i`.
pub open spec fn matches_at(h: Seq<char>, n: Seq<char>, i: int) -> bool {
    0 <= i && i + n.len() <= h.len() && h.subrange(i, i + n.len()) == n
}

/// The first position at or after `from` where `n` occurs in `h`.
pub open spec fn find_from_spec(h: Seq<char>, n: Seq<char>, from: int) -> Option<int>
    decreases h.len() - from,
{
    if from < 0 || from + n.len() > h.len() {
        None
    } else if matches_at(h, n, from) {
        Some(from)
    } else {
        proof {
            if n.len() == 0 {
                assert(h.subrange(from, from) =~= n);
            }
        }
        find_from_spec(h, n, from + 1)
    }
}

/// The first position where `n` occurs in `h`.
pub open spec fn find_spec(h: Seq<char>, n: Seq<char>) -> Option<int> {
    find_from_spec(h, n, 0)
}

/// Whether `n` occurs anywhere in `h`.
pub open spec fn contains_spec(h: Seq<char>, n: Seq<char>) -> bool {
    find_spec(h, n) is Some
}

pub open spec fn starts_with_spec(h: Seq<char>, n: Seq<char>) -> bool {
    n.len() <= h.len() && h.take(n.len() as int) == n
}

pub open spec fn ends_with_spec(h: Seq<char>, n: Seq<char>) -> bool {
    n.len() <= h.len() && h.skip(h.len() - n.len()) == n
}

/// A found position really is an occurrence, the first one at or after `from`.
pub proof fn lemma_find_from(h: Seq<char>, n: Seq<char>, from: int)
    requires
        0 <= from,
    ensures
        find_from_spec(h, n, from) matches Some(i) ==> from <= i && matches_at(h, n, i)
            && forall|j: int| from <= j < i ==> !matches_at(h, n, j),
        find_from_spec(h, n, from) is None ==> forall|j: int| from <= j ==> !matches_at(h, n, j),
    decreases h.len() - from,
{
    if from + n.len() > h.len() {
    } else if matches_at(h, n, from) {
    } else {
        if n.len() == 0 {
            assert(h.subrange(from, from) =~= n);
        }
        lemma_find_from(h, n, from + 1);
    }
}

/// Whether `h[i..i+n.len()]` equals `n`.
pub fn matches_at_exec(h: &[char], n: &[char], i: usize) -> (r: bool)
    ensures
        r == matches_at(h@, n@, i as int),
{
    if i > h.len() || n.len() > h.len() - i {
        return false;
    }
    let mut k: usize = 0;
    while k < n.len()
        invariant
            i + n.len() <= h.len(),
            k <= n.len(),
            forall|j: int| 0 <= j < k ==> h@[i + j] == n@[j],
        decreases n.len() - k,
    {
        if h[i + k] != n[k] {
            assert(h@.subrange(i as int, i + n.len())[k as int] != n@[k as int]);
            return false;
        }
        k += 1;
    }
    assert(h@.subrange(i as int, i + n.len()) =~= n@);
    true
}

/// The first position at or after `from` where `n` occurs in `h`.
pub fn find_from(h: &[char], n: &[char], from: usize) -> (r: Option<usize>)
    ensures
        r matches Some(i) ==> find_from_spec(h@, n@, from as int) == Some(i as int) && from <= i
            && i + n.len() <= h.len() && matches_at(h@, n@, i as int),
        r is None ==> find_from_spec(h@, n@, from as int) is None,
{
    let mut i = from;
    if i > h.len() || n.len() > h.len() - i {
        return None;
    }
    loop
        invariant
            from <= i <= h.len() - n.len(),
            n.len() <= h.len(),
            find_from_spec(h@, n@, from as int) == find_from_spec(h@, n@, i as int),
        decreases h.len() - i,
    {
        if matches_at_exec(h, n, i) {
            return Some(i);
        }
        if i == h.len() - n.len() {
            assert(find_from_spec(h@, n@, i as int + 1) is None);
            return None;
        }
        i += 1;
    }
}

/// The first position where `n` occurs in `h`.
pub fn find(h: &[char], n: &[char]) -> (r: Option<usize>)
    ensures
        r matches Some(i) ==> find_spec(h@, n@) == Some(i as int) && i + n.len() <= h.len()
            && matches_at(h@, n@, i as int),
        r is None ==> find_spec(h@, n@) is None,
{
    find_from(h, n, 0)
}

/// Whether `n` occurs anywhere in `h`.
pub fn contains(h: &[char], n: &[char]) -> (r: bool)
    ensures
        r == contains_spec(h@, n@),
{
    find(h, n).is_some()
}

pub fn starts_with(h: &[char], n: &[char]) -> (r: bool)
    ensures
        r == starts_with_spec(h@, n@),
{
    if n.len() > h.len() {
        return false;
    }
    let r = matches_at_exec(h, n, 0);
    assert(h@.subrange(0, n@.len() as int) == h@.take(n@.len() as int));
    r
}

pub fn ends_with(h: &[char], n: &[char]) -> (r: bool)
    ensures
        r == ends_with_spec(h@, n@),
{
    if n.len() > h.len() {
        return false;
    }
    let r = matches_at_exec(h, n, h.len() - n.len());
    assert(h@.subrange(h.len() - n.len(), h.len() as int) == h@.skip(h.len() - n.len()));
    r
}

/// Whether two character sequences are equal.
pub fn seq_eq(a: &[char], b: &[char]) -> (r: bool)
    ensures
        r == (a@ == b@),
{
    if a.len() != b.len() {
        return false;
    }
    let r = matches_at_exec(a, b, 0);
    assert(a@.subrange(0, a.len() as int) == a@);
    r
}

/// Whether two strings hold the same characters.
pub fn str_eq(a: &str, b: &str) -> (r: bool)
    ensures
        r == (a@ == b@),
{
    let av = chars_of(a);
    let bv = chars_of(b);
    seq_eq(av.as_slice(), bv.as_slice())
}

} // verus!

verus! {

/// Unicode `White_Space`, the set `char::is_whitespace` and `str::trim` use.
pub open spec fn is_ws(c: char) -> bool {
    let u = c as u32;
    (0x09 <= u && u <= 0x0D) || u == 0x20 || u == 0x85 || u == 0xA0 || u == 0x1680
        || (0x2000 <= u && u <= 0x200A) || u == 0x2028 || u == 0x2029 || u == 0x202F
        || u == 0x205F || u == 0x3000
}

pub fn is_ws_exec(c: char) -> (r: bool)
    ensures
        r == is_ws(c),
{
    let u = c as u32;
    (0x09 <= u && u <= 0x0D) || u == 0x20 || u == 0x85 || u == 0xA0 || u == 0x1680
        || (0x2000 <= u && u <= 0x200A) || u == 0x2028 || u == 0x2029 || u == 0x202F
        || u == 0x205F || u == 0x3000
}

/// Leading whitespace removed.
pub open spec fn trim_start_spec(s: Seq<char>) -> Seq<char>
    decreases s.len(),
{
    if s.len() > 0 && is_ws(s[0]) {
        trim_start_spec(s.drop_first())
    } else {
        s
    }
}

/// Trailing whitespace removed.
pub open spec fn trim_end_spec(s: Seq<char>) -> Seq<char>
    decreases s.len(),
{
    if s.len() > 0 && is_ws(s.last()) {
        trim_end_spec(s.drop_last())
    } else {
        s
    }
}

/// Leading and trailing whitespace removed, as `str::trim` does.
pub open spec fn trim_spec(s: Seq<char>) -> Seq<char> {
    trim_end_spec(trim_start_spec(s))
}

proof fn lemma_trim_start_from(s: Seq<char>, a: int)
    requires
        0 <= a <= s.len(),
        forall|j: int| 0 <= j < a ==> is_ws(s[j]),
    ensures
        trim_start_spec(s) == trim_start_spec(s.skip(a)),
    decreases a,
{
    if a > 0 {
        assert(s.skip(1) == s.drop_first());
        lemma_trim_start_from(s.drop_first(), a - 1);
        assert(s.drop_first().skip(a - 1) == s.skip(a));
    } else {
        assert(s.skip(0) == s);
    }
}

proof fn lemma_trim_end_from(s: Seq<char>, b: int)
    requires
        0 <= b <= s.len(),
        forall|j: int| b <= j < s.len() ==> is_ws(s[j]),
    ensures
        trim_end_spec(s) == trim_end_spec(s.take(b)),
    decreases s.len() - b,
{
    if b < s.len() {
        lemma_trim_end_from(s.drop_last(), b);
        assert(s.drop_last().take(b) == s.take(b));
    } else {
        assert(s.take(b) == s);
    }
}

/// Leading and trailing whitespace removed.
pub fn trim(s: &[char]) -> (r: Vec<char>)
    ensures
        r@ == trim_spec(s@),
{
    let mut a: usize = 0;
    while a < s.len() && is_ws_exec(s[a])
        invariant
            a <= s.len(),
            forall|j: int| 0 <= j < a ==> is_ws(s@[j]),
        decreases s.len() - a,
    {
        a += 1;
    }
    proof {
        lemma_trim_start_from(s@, a as int);
    }
    let mut b: usize = s.len();
    while b > a && is_ws_exec(s[b - 1])
        invariant
            a <= b <= s.len(),
            forall|j: int| b <= j < s.len() ==> is_ws(s@[j]),
        decreases b,
    {
        b -= 1;
    }
    let ghost t = s@.skip(a as int);
    proof {
        assert(a == s.len() || !is_ws(s@[a as int]));
        assert(trim_start_spec(t) == t) by {
            if t.len() > 0 {
                assert(t[0] == s@[a as int]);
            }
        }
        lemma_trim_end_from(t, b - a);
        if b - a > 0 {
            assert(t.take(b - a).last() == s@[b - 1]);
        }
        assert(trim_end_spec(t.take(b - a)) == t.take(b - a));
        assert(t.take(b - a) == s@.subrange(a as int, b as int));
    }
    let mut r: Vec<char> = Vec::new();
    let mut k = a;
    while k < b
        invariant
            a <= k <= b <= s.len(),
            r@ == s@.subrange(a as int, k as int),
        decreases b - k,
    {
        r.push(s[k]);
        k += 1;
        assert(r@ == s@.subrange(a as int, k as int));
    }
    r
}

} // verus!

verus! {

/// The decimal digit for `d < 10`.
pub open spec fn digit_char(d: nat) -> char {
    if d == 0 { '0' } else if d == 1 { '1' } else if d == 2 { '2' } else if d == 3 { '3' }
    else if d == 4 { '4' } else if d == 5 { '5' } else if d == 6 { '6' } else if d == 7 { '7' }
    else if d == 8 { '8' } else { '9' }
}

/// The decimal notation of a natural number, without leading zeros.
pub open spec fn decimal(n: nat) -> Seq<char>
    decreases n,
{
    if n < 10 {
        seq![digit_char(n)]
    } else {
        decimal(n / 10).push(digit_char(n % 10))
    }
}

fn digit_char_exec(d: u64) -> (c: char)
    requires
        d < 10,
    ensures
        c == digit_char(d as nat),
{
    if d == 0 { '0' } else if d == 1 { '1' } else if d == 2 { '2' } else if d == 3 { '3' }
    else if d == 4 { '4' } else if d == 5 { '5' } else if d == 6 { '6' } else if d == 7 { '7' }
    else if d == 8 { '8' } else { '9' }
}

/// Appends the decimal notation of `n` to `out`.
pub fn push_decimal(n: u64, out: &mut String)
    ensures
        final(out)@ == old(out)@ + decimal(n as nat),
    decreases n,
{
    if n >= 10 {
        push_decimal(n / 10, out);
    }
    out.push(digit_char_exec(n % 10));
    assert(decimal(n as nat) == if n < 10 {
        seq![digit_char(n as nat)]
    } else {
        decimal((n / 10) as nat).push(digit_char((n % 10) as nat))
    });
}

/// The decimal notation of a signed number: a minus sign before a negative one.
pub open spec fn signed_decimal(n: int) -> Seq<char> {
    if n < 0 {
        seq!['-'] + decimal((-n) as nat)
    } else {
        decimal(n as nat)
    }
}

/// Appends the decimal notation of a signed number to `out`.
pub fn push_signed_decimal(n: i64, out: &mut String)
    ensures
        final(out)@ == old(out)@ + signed_decimal(n as int),
{
    if n < 0 {
        out.push('-');
        let m: u64 = if n == i64::MIN {
            0x8000_0000_0000_0000u64
        } else {
            (-n) as u64
        };
        push_decimal(m, out);
        assert(old(out)@.push('-') + decimal(m as nat) == old(out)@ + (seq!['-'] + decimal(
            m as nat,
        )));
    } else {
        push_decimal(n as u64, out);
    }
}

/// A string with the given characters followed by the decimal notation of `n`.
pub fn with_decimal(prefix: &str, n: u64) -> (s: String)
    ensures
        s@ == prefix@ + decimal(n as nat),
{
    let mut s = prefix.to_owned();
    push_decimal(n, &mut s);
    s
}

} // verus!

verus! {

pub open spec fn is_ascii_digit(c: char) -> bool {
    '0' <= c && c <= '9'
}

/// The value of a string of ASCII digits.
pub open spec fn digits_value(s: Seq<char>) -> nat
    decreases s.len(),
{
    if s.len() == 0 {
        0
    } else {
        digits_value(s.drop_last()) * 10 + (s.last() as nat - '0' as nat) as nat
    }
}

pub open spec fn all_digits(s: Seq<char>) -> bool {
    forall|i: int| 0 <= i < s.len() ==> is_ascii_digit(#[trigger] s[i])
}

/// What `str::parse` accepts for an integer type with range `[lo, hi]`: a
/// `+` sign, or a `-` sign for a signed type (`lo < 0`), then one or more
/// ASCII digits, with a value in range.
pub open spec fn parse_int_spec(s: Seq<char>, lo: int, hi: int) -> Option<int> {
    let signed = lo < 0;
    let neg = signed && s.len() > 0 && s[0] == '-';
    let body = if s.len() > 0 && (s[0] == '+' || neg) {
        s.skip(1)
    } else {
        s
    };
    if body.len() == 0 || !all_digits(body) {
        None
    } else {
        let v = if neg {
            -(digits_value(body) as int)
        } else {
            digits_value(body) as int
        };
        if lo <= v <= hi {
            Some(v)
        } else {
            None
        }
    }
}

proof fn lemma_digits_value_step(s: Seq<char>, i: int)
    requires
        0 <= i < s.len(),
        is_ascii_digit(s[i]),
    ensures
        digits_value(s.take(i + 1)) == digits_value(s.take(i)) * 10 + (s[i] as nat - '0' as nat),
{
    assert(s.take(i + 1).drop_last() == s.take(i));
}

/// Parse a decimal integer in `[lo, hi]` as `str::parse` does for the
/// integer type with that range.
pub fn parse_int(s: &[char], lo: i128, hi: i128) -> (r: Option<i128>)
    requires
        -0x1_0000_0000_0000_0000 <= lo,
        hi <= 0x1_0000_0000_0000_0000,
    ensures
        match r {
            Some(v) => parse_int_spec(s@, lo as int, hi as int) == Some(v as int),
            None => parse_int_spec(s@, lo as int, hi as int) is None,
        },
{
    let signed = lo < 0;
    let neg = signed && s.len() > 0 && s[0] == '-';
    let start: usize = if s.len() > 0 && (s[0] == '+' || neg) {
        1
    } else {
        0
    };
    let ghost body = if s.len() > 0 && (s[0] == '+' || neg) {
        s@.skip(1)
    } else {
        s@
    };
    assert(body =~= s@.skip(start as int));
    if start >= s.len() {
        return None;
    }
    // Accumulate the magnitude, stopping once it exceeds every bound.
    let mut acc: u128 = 0;
    let mut big = false;
    let mut i: usize = start;
    while i < s.len()
        invariant
            start <= i <= s.len(),
            body =~= s@.skip(start as int),
            body == (if s@.len() > 0 && (s@[0] == '+' || neg) {
                s@.skip(1)
            } else {
                s@
            }),
            neg == (lo < 0 && s@.len() > 0 && s@[0] == '-'),
            forall|j: int| start <= j < i ==> is_ascii_digit(#[trigger] s@[j]),
            !big ==> acc as nat == digits_value(body.take(i - start)),
            !big ==> acc <= 0x1_0000_0000_0000_0000,
            big ==> digits_value(body.take(i - start)) > 0x1_0000_0000_0000_0000,
        decreases s.len() - i,
    {
        let c = s[i];
        if !('0' <= c && c <= '9') {
            assert(!is_ascii_digit(body[i - start]));
            return None;
        }
        proof {
            assert(body[i - start] == c);
            lemma_digits_value_step(body, i - start);
        }
        let d: u128 = (c as u32 - '0' as u32) as u128;
        if !big {
            let next = acc * 10 + d;
            if next > 0x1_0000_0000_0000_0000 {
                big = true;
            } else {
                acc = next;
            }
        }
        i += 1;
    }
    assert(body.take(s.len() - start) == body);
    assert(all_digits(body));
    if big {
        return None;
    }
    let mag: i128 = acc as i128;
    let v: i128 = if neg {
        -mag
    } else {
        mag
    };
    if lo <= v && v <= hi {
        Some(v)
    } else {
        None
    }
}

} // verus!

verus! {

/// The characters `s[a..b]`.
pub fn slice_chars(s: &[char], a: usize, b: usize) -> (r: Vec<char>)
    requires
        a <= b <= s.len(),
    ensures
        r@ == s@.subrange(a as int, b as int),
{
    let mut r: Vec<char> = Vec::new();
    let mut i: usize = a;
    while i < b
        invariant
            a <= i <= b <= s.len(),
            r@ == s@.subrange(a as int, i as int),
        decreases b - i,
    {
        r.push(s[i]);
        i += 1;
    }
    r
}

/// Appends characters to a vector.
pub fn append_chars(out: &mut Vec<char>, s: &[char])
    ensures
        final(out)@ == old(out)@ + s@,
{
    let mut i: usize = 0;
    while i < s.len()
        invariant
            i <= s.len(),
            out@ == old(out)@ + s@.take(i as int),
        decreases s.len() - i,
    {
        out.push(s[i]);
        i += 1;
        assert(s@.take(i as int) == s@.take(i - 1).push(s@[i - 1]));
    }
    assert(s@.take(s.len() as int) == s@);
}

/// Every non-overlapping occurrence of `pat`, scanning from `i` leftwards
/// first, replaced by `rep`, as `str::replace` does.
pub open spec fn replace_from(s: Seq<char>, pat: Seq<char>, rep: Seq<char>, i: int) -> Seq<char>
    decreases s.len() - i,
{
    if i < 0 || i > s.len() || pat.len() == 0 {
        s.skip(i)
    } else {
        match find_from_spec(s, pat, i) {
            None => s.skip(i),
            Some(j) => {
                proof {
                    lemma_find_from(s, pat, i);
                }
                s.subrange(i, j) + rep + replace_from(s, pat, rep, j + pat.len())
            },
        }
    }
}

pub open spec fn replace_spec(s: Seq<char>, pat: Seq<char>, rep: Seq<char>) -> Seq<char> {
    replace_from(s, pat, rep, 0)
}

/// Replace every occurrence of a non-empty pattern.
pub fn replace_all(s: &[char], pat: &[char], rep: &[char]) -> (r: Vec<char>)
    requires
        pat.len() > 0,
    ensures
        r@ == replace_spec(s@, pat@, rep@),
{
    let mut out: Vec<char> = Vec::new();
    let mut i: usize = 0;
    while i <= s.len()
        invariant
            i <= s.len() + 1,
            pat.len() > 0,
            i <= s.len() ==> out@ + replace_from(s@, pat@, rep@, i as int) == replace_from(s@, pat@, rep@, 0),
            i > s.len() ==> out@ == replace_from(s@, pat@, rep@, 0),
        decreases s.len() + 1 - i,
    {
        match find_from(s, pat, i) {
            None => {
                let tail = slice_chars(s, i, s.len());
                assert(tail@ == s@.skip(i as int));
                append_chars(&mut out, tail.as_slice());
                assert(out@ =~= replace_from(s@, pat@, rep@, 0));
                return out;
            },
            Some(j) => {
                proof {
                    lemma_find_from(s@, pat@, i as int);
                }
                let mid = slice_chars(s, i, j);
                let ghost before = out@;
                append_chars(&mut out, mid.as_slice());
                append_chars(&mut out, rep);
                assert(out@ + replace_from(s@, pat@, rep@, j + pat.len()) =~= before + replace_from(
                    s@,
                    pat@,
                    rep@,
                    i as int,
                ));
                i = j + pat.len();
            },
        }
    }
    out
}

/// The parts of `s` between the separators `sep`, as `str::split` yields them:
/// the parts so far and the part in progress after `n` characters.
pub open spec fn split_scan(s: Seq<char>, sep: char, n: int) -> (Seq<Seq<char>>, Seq<char>)
    decreases n,
{
    if n <= 0 || n > s.len() {
        (Seq::empty(), Seq::empty())
    } else {
        let prev = split_scan(s, sep, n - 1);
        if s[n - 1] == sep {
            (prev.0.push(prev.1), Seq::empty())
        } else {
            (prev.0, prev.1.push(s[n - 1]))
        }
    }
}

pub open spec fn split_spec(s: Seq<char>, sep: char) -> Seq<Seq<char>> {
    let st = split_scan(s, sep, s.len() as int);
    st.0.push(st.1)
}

pub open spec fn vecs_view(v: Seq<Vec<char>>) -> Seq<Seq<char>> {
    v.map_values(|x: Vec<char>| x@)
}

/// Split at every occurrence of a separator character.
pub fn split_char(s: &[char], sep: char) -> (r: Vec<Vec<char>>)
    ensures
        vecs_view(r@) == split_spec(s@, sep),
{
    let mut parts: Vec<Vec<char>> = Vec::new();
    let mut cur: Vec<char> = Vec::new();
    let mut i: usize = 0;
    while i < s.len()
        invariant
            i <= s.len(),
            (vecs_view(parts@), cur@) == split_scan(s@, sep, i as int),
        decreases s.len() - i,
    {
        if s[i] == sep {
            let ghost before = parts@;
            parts.push(cur);
            assert(vecs_view(parts@) =~= vecs_view(before).push(parts@.last()@));
            cur = Vec::new();
        } else {
            cur.push(s[i]);
        }
        i += 1;
    }
    let ghost before = parts@;
    parts.push(cur);
    assert(vecs_view(parts@) =~= vecs_view(before).push(parts@.last()@));
    parts
}

/// Join parts with a separator between them.
pub open spec fn join_spec(parts: Seq<Seq<char>>, sep: Seq<char>) -> Seq<char>
    decreases parts.len(),
{
    if parts.len() == 0 {
        Seq::empty()
    } else if parts.len() == 1 {
        parts[0]
    } else {
        join_spec(parts.drop_last(), sep) + sep + parts.last()
    }
}

pub fn join(parts: &Vec<Vec<char>>, sep: &[char]) -> (r: Vec<char>)
    ensures
        r@ == join_spec(vecs_view(parts@), sep@),
{
    let ghost ps = vecs_view(parts@);
    let mut out: Vec<char> = Vec::new();
    let mut i: usize = 0;
    while i < parts.len()
        invariant
            i <= parts.len(),
            ps == vecs_view(parts@),
            out@ == join_spec(ps.take(i as int), sep@),
        decreases parts.len() - i,
    {
        assert(ps.take(i + 1).drop_last() == ps.take(i as int));
        if i > 0 {
            append_chars(&mut out, sep);
        }
        append_chars(&mut out, parts[i].as_slice());
        i += 1;
    }
    assert(ps.take(parts.len() as int) == ps);
    out
}

/// The number of bytes a character takes in UTF-8.
pub open spec fn utf8_width(c: char) -> nat {
    let u = c as u32;
    if u < 0x80 {
        1
    } else if u < 0x800 {
        2
    } else if u < 0x10000 {
        3
    } else {
        4
    }
}

/// The number of bytes a string takes in UTF-8.
pub open spec fn utf8_len(s: Seq<char>) -> nat
    decreases s.len(),
{
    if s.len() == 0 {
        0
    } else {
        utf8_len(s.drop_last()) + utf8_width(s.last())
    }
}

/// The UTF-8 length of `s[..n]`, saturating at `usize::MAX`.
pub fn utf8_len_prefix(s: &[char], n: usize) -> (r: usize)
    requires
        n <= s.len(),
    ensures
        r == if utf8_len(s@.take(n as int)) > usize::MAX {
            usize::MAX as nat
        } else {
            utf8_len(s@.take(n as int))
        },
{
    let mut total: usize = 0;
    let mut i: usize = 0;
    let mut sat = false;
    while i < n
        invariant
            i <= n <= s.len(),
            !sat ==> total == utf8_len(s@.take(i as int)),
            sat ==> total == usize::MAX && utf8_len(s@.take(i as int)) > usize::MAX,
        decreases n - i,
    {
        assert(s@.take(i + 1).drop_last() == s@.take(i as int));
        let u = s[i] as u32;
        let w: usize = if u < 0x80 {
            1
        } else if u < 0x800 {
            2
        } else if u < 0x10000 {
            3
        } else {
            4
        };
        if !sat {
            if total > usize::MAX - w {
                sat = true;
                total = usize::MAX;
            } else {
                total = total + w;
            }
        }
        i += 1;
    }
    total
}

} // verus!

verus! {

/// `char::is_control`: the characters of Unicode category Cc.
pub open spec fn is_control(c: char) -> bool {
    let u = c as u32;
    u <= 0x1F || (0x7F <= u && u <= 0x9F)
}

/// Some character of the text is a control character.
pub open spec fn any_control(s: Seq<char>) -> bool {
    exists|i: int| 0 <= i < s.len() && is_control(#[trigger] s[i])
}

pub fn has_control(s: &[char]) -> (r: bool)
    ensures
        r == any_control(s@),
{
    let mut i: usize = 0;
    while i < s.len()
        invariant
            i <= s.len(),
            forall|j: int| 0 <= j < i ==> !is_control(#[trigger] s@[j]),
        decreases s.len() - i,
    {
        let u = s[i] as u32;
        if u <= 0x1F || (0x7F <= u && u <= 0x9F) {
            assert(is_control(s@[i as int]));
            return true;
        }
        i += 1;
    }
    false
}

/// `A`..`Z` mapped to `a`..`z`, every other character kept.
pub open spec fn ascii_lower_char(c: char) -> char {
    if 'A' <= c && c <= 'Z' {
        ((c as u32) + 32) as char
    } else {
        c
    }
}

/// `str::to_ascii_lowercase` on the characters of a text.
pub open spec fn ascii_lower_spec(s: Seq<char>) -> Seq<char> {
    s.map_values(|c: char| ascii_lower_char(c))
}

pub fn to_ascii_lower(s: &[char]) -> (r: Vec<char>)
    ensures
        r@ == ascii_lower_spec(s@),
{
    let mut r: Vec<char> = Vec::new();
    let mut i: usize = 0;
    while i < s.len()
        invariant
            i <= s.len(),
            r@ == ascii_lower_spec(s@.take(i as int)),
        decreases s.len() - i,
    {
        let x = s[i];
        let lx = if 'A' <= x && x <= 'Z' { ((x as u32) + 32) as u8 as char } else { x };
        assert(lx == ascii_lower_char(x));
        r.push(lx);
        i += 1;
        assert(ascii_lower_spec(s@.take(i as int)) == ascii_lower_spec(s@.take(i - 1)).push(lx));
    }
    assert(s@.take(s.len() as int) == s@);
    r
}

/// The UTF-8 length of a text, saturating at `usize::MAX`.
pub fn utf8_len_of(s: &[char]) -> (r: usize)
    ensures
        r == if utf8_len(s@) > usize::MAX { usize::MAX as nat } else { utf8_len(s@) },
{
    let r = utf8_len_prefix(s, s.len());
    assert(s@.take(s.len() as int) == s@);
    r
}

} // verus!
