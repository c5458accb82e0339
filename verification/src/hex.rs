//! Hexadecimal text and bytes.
use vstd::prelude::*;
use vstd::utf8::is_continuation_byte;
use vstd::string::StringSliceAdditionalSpecFns;

verus! {

/// The value of an ASCII hex digit, either case.
pub open spec fn hex_digit_val(b: u8) -> Option<nat> {
    if 0x30 <= b <= 0x39 {
        Some((b - 0x30) as nat)
    } else if 0x61 <= b <= 0x66 {
        Some((b - 0x61 + 10) as nat)
    } else if 0x41 <= b <= 0x46 {
        Some((b - 0x41 + 10) as nat)
    } else {
        None
    }
}

/// The byte two characters of hex text give, as `u8::from_str_radix(_, 16)`
/// reads them: two hex digits, or a `+` sign and one digit.
pub open spec fn pair_value(b0: u8, b1: u8) -> Option<u8> {
    if b0 == 0x2b {
        match hex_digit_val(b1) {
            Some(v) => Some(v as u8),
            None => None,
        }
    } else {
        match (hex_digit_val(b0), hex_digit_val(b1)) {
            (Some(x), Some(y)) => Some((16 * x + y) as u8),
            _ => None,
        }
    }
}

/// The bytes decoded from the pairs at `i` onwards, none if a pair is not hex.
pub open spec fn hex_from(b: Seq<u8>, i: int) -> Option<Seq<u8>>
    decreases b.len() - i,
{
    if i < 0 || i + 1 >= b.len() {
        Some(Seq::empty())
    } else {
        match pair_value(b[i], b[i + 1]) {
            None => None,
            Some(v) => match hex_from(b, i + 2) {
                Some(rest) => Some(seq![v] + rest),
                None => None,
            },
        }
    }
}

/// A UTF-8 character boundary of `b` at `i` (or its end).
pub open spec fn at_boundary(b: Seq<u8>, i: int) -> bool {
    i == b.len() || (0 <= i < b.len() && !is_continuation_byte(b[i]))
}

/// Slicing the text two bytes at a time from `i` on reaches a position inside
/// a character before any pair fails to parse.
pub open spec fn hex_split_inside_char(b: Seq<u8>, i: int) -> bool
    decreases b.len() - i,
{
    if i < 0 || i + 1 >= b.len() {
        false
    } else if !at_boundary(b, i + 2) {
        true
    } else if pair_value(b[i], b[i + 1]) is None {
        false
    } else {
        hex_split_inside_char(b, i + 2)
    }
}

/// The bytes hex text decodes to: none for an odd byte length or a pair
/// that is not hex.
pub open spec fn hex_decode_spec(b: Seq<u8>) -> Option<Seq<u8>> {
    if b.len() % 2 != 0 {
        None
    } else {
        hex_from(b, 0)
    }
}

/// Decoding stops inside a character (and slicing there would panic).
pub open spec fn hex_decode_panics(b: Seq<u8>) -> bool {
    b.len() % 2 == 0 && hex_split_inside_char(b, 0)
}

fn hex_digit_exec(b: u8) -> (r: Option<u8>)
    ensures
        match r {
            Some(v) => hex_digit_val(b) == Some(v as nat),
            None => hex_digit_val(b) is None,
        },
{
    if 0x30 <= b && b <= 0x39 {
        Some(b - 0x30)
    } else if 0x61 <= b && b <= 0x66 {
        Some(b - 0x61 + 10)
    } else if 0x41 <= b && b <= 0x46 {
        Some(b - 0x41 + 10)
    } else {
        None
    }
}

fn pair_value_exec(b0: u8, b1: u8) -> (r: Option<u8>)
    ensures
        r == pair_value(b0, b1),
{
    if b0 == 0x2b {
        match hex_digit_exec(b1) {
            Some(v) => Some(v),
            None => None,
        }
    } else {
        match (hex_digit_exec(b0), hex_digit_exec(b1)) {
            (Some(x), Some(y)) => Some(16 * x + y),
            _ => None,
        }
    }
}

proof fn lemma_hex_from_split(b: Seq<u8>, i: int, acc: Seq<u8>, v: u8)
    requires
        0 <= i,
        i + 1 < b.len(),
        pair_value(b[i], b[i + 1]) == Some(v),
    ensures
        (match hex_from(b, i + 2) {
            Some(rest) => Some(acc.push(v) + rest),
            None => None::<Seq<u8>>,
        }) == (match hex_from(b, i) {
            Some(rest) => Some(acc + rest),
            None => None::<Seq<u8>>,
        }),
{
    match hex_from(b, i + 2) {
        Some(rest) => {
            assert(acc.push(v) + rest =~= acc + (seq![v] + rest));
        },
        None => {},
    }
}

/// Whether decoding `hex` would slice it inside a multi-byte character.
pub fn hex_decode_would_panic(hex: &str) -> (r: bool)
    ensures
        r == hex_decode_panics(hex.spec_bytes()),
{
    let b = hex.as_bytes();
    if b.len() % 2 != 0 {
        return false;
    }
    let mut i: usize = 0;
    while i + 1 < b.len()
        invariant
            b@ == hex.spec_bytes(),
            b.len() % 2 == 0,
            i <= b.len(),
            hex_split_inside_char(b@, 0) == hex_split_inside_char(b@, i as int),
        decreases b.len() - i,
    {
        let j = i + 2;
        let boundary = j == b.len() || (j < b.len() && !(0x80 <= b[j] && b[j] <= 0xbf));
        if !boundary {
            return true;
        }
        if pair_value_exec(b[i], b[i + 1]).is_none() {
            return false;
        }
        i = j;
    }
    false
}

/// Decode a hex string to bytes; none for an odd length or a non-hex pair.
pub fn hex_decode(hex: &str) -> (r: Option<Vec<u8>>)
    requires
        !hex_decode_panics(hex.spec_bytes()),
    ensures
        match r {
            Some(v) => hex_decode_spec(hex.spec_bytes()) == Some(v@),
            None => hex_decode_spec(hex.spec_bytes()) is None,
        },
{
    let b = hex.as_bytes();
    if b.len() % 2 != 0 {
        return None;
    }
    let mut out: Vec<u8> = Vec::new();
    let mut i: usize = 0;
    while i + 1 < b.len()
        invariant
            b@ == hex.spec_bytes(),
            b.len() % 2 == 0,
            i % 2 == 0,
            i <= b.len(),
            !hex_split_inside_char(b@, i as int),
            hex_decode_spec(b@) == match hex_from(b@, i as int) {
                Some(rest) => Some(out@ + rest),
                None => None,
            },
        decreases b.len() - i,
    {
        match pair_value_exec(b[i], b[i + 1]) {
            None => return None,
            Some(v) => {
                proof {
                    lemma_hex_from_split(b@, i as int, out@, v);
                }
                out.push(v);
                i = i + 2;
            },
        }
    }
    assert(hex_from(b@, i as int) == Some(Seq::<u8>::empty()));
    assert(out@ + Seq::<u8>::empty() =~= out@);
    Some(out)
}

/// Lower-case hex digit for a value below 16.
pub open spec fn hex_char(v: nat) -> char {
    if v < 10 {
        (0x30 + v) as char
    } else {
        (0x61 + v - 10) as char
    }
}

/// Two lower-case hex digits per byte.
pub open spec fn hex_encode_spec(b: Seq<u8>) -> Seq<char>
    decreases b.len(),
{
    if b.len() == 0 {
        Seq::empty()
    } else {
        hex_encode_spec(b.drop_last()) + seq![hex_char((b.last() / 16) as nat), hex_char((b.last() % 16) as nat)]
    }
}

fn hex_char_exec(v: u8) -> (c: char)
    requires
        v < 16,
    ensures
        c == hex_char(v as nat),
{
    if v < 10 {
        (0x30 + v) as char
    } else {
        (0x61 + v - 10) as char
    }
}

/// Lower-case hex text of bytes, two digits each.
pub fn hex_encode(bytes: &[u8]) -> (s: String)
    ensures
        s@ == hex_encode_spec(bytes@),
{
    let mut s = String::new();
    let mut i: usize = 0;
    while i < bytes.len()
        invariant
            i <= bytes.len(),
            s@ == hex_encode_spec(bytes@.take(i as int)),
        decreases bytes.len() - i,
    {
        assert(bytes@.take(i + 1).drop_last() == bytes@.take(i as int));
        let b = bytes[i];
        let hi = hex_char_exec(b / 16);
        let lo = hex_char_exec(b % 16);
        let ghost before = s@;
        s.push(hi);
        s.push(lo);
        assert(s@ == before + seq![hi, lo]);
        i += 1;
    }
    assert(bytes@.take(bytes.len() as int) == bytes@);
    s
}

/// `h` is `b` written in hex, two digits per byte, high digit first, each
/// digit in either letter case.
pub open spec fn is_hex_of(h: Seq<u8>, b: Seq<u8>) -> bool {
    &&& h.len() == 2 * b.len()
    &&& forall|i: int|
        #![trigger b[i]]
        0 <= i < b.len() ==> hex_digit_val(h[2 * i]) == Some((b[i] / 16) as nat) && hex_digit_val(h[2 * i + 1])
            == Some((b[i] % 16) as nat)
}

proof fn lemma_hex_from_of(h: Seq<u8>, b: Seq<u8>, k: int)
    requires
        is_hex_of(h, b),
        0 <= k <= b.len(),
    ensures
        hex_from(h, 2 * k) == Some(b.skip(k)),
        !hex_split_inside_char(h, 2 * k),
    decreases b.len() - k,
{
    if k == b.len() {
        assert(b.skip(k) =~= Seq::<u8>::empty());
    } else {
        let x = b[k];
        assert(hex_digit_val(h[2 * k]) == Some((x / 16) as nat));
        assert(hex_digit_val(h[2 * k + 1]) == Some((x % 16) as nat));
        assert(h[2 * k] != 0x2b);
        assert((16 * (x / 16) + x % 16) as u8 == x);
        assert(pair_value(h[2 * k], h[2 * k + 1]) == Some(x));
        lemma_hex_from_of(h, b, k + 1);
        assert(2 * k + 2 == 2 * (k + 1));
        if k + 1 < b.len() {
            let y = b[k + 1];
            assert(hex_digit_val(h[2 * (k + 1)]) == Some((y / 16) as nat));
            assert(at_boundary(h, 2 * k + 2));
        } else {
            assert(at_boundary(h, 2 * k + 2));
        }
        assert(seq![x] + b.skip(k + 1) =~= b.skip(k));
    }
}

/// Decoding `b` written in hex, in any letter case, gives `b` back, and the
/// text never splits inside a character.
pub proof fn lemma_hex_decode_round_trip(h: Seq<u8>, b: Seq<u8>)
    requires
        is_hex_of(h, b),
    ensures
        hex_decode_spec(h) == Some(b),
        !hex_decode_panics(h),
{
    lemma_hex_from_of(h, b, 0);
    assert(b.skip(0) =~= b);
}

} // verus!
