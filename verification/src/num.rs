//! Decimal text: the spec-level meaning of digit strings and the verified
//! parsers for the unsigned, signed and fixed-point fields that both data
//! sources use.
//!
//! A price is stored as an `i64` count of ten-thousandths, so up to four
//! fraction digits are kept exactly and up to fourteen integer digits fit
//! without overflow.

use vstd::prelude::*;

verus! {

/// How many ten-thousandths one currency unit has.
pub const PRICE_SCALE: i64 = 10000;

/// Fraction digits a price field may carry.
pub const MAX_FRAC_DIGITS: usize = 4;

/// Integer digits a price field may carry without overflowing the
/// scaled `i64` representation.
pub const MAX_INT_DIGITS: usize = 14;

/// Digits an unsigned field may carry: any 19-digit number fits in `u64`.
pub const MAX_U64_DIGITS: usize = 19;

/// Digits a timestamp magnitude may carry: any 18-digit number fits in `i64`.
pub const MAX_I64_DIGITS: usize = 18;

/// The views of a sequence of owned byte strings.
pub open spec fn views_of(fs: Seq<Vec<u8>>) -> Seq<Seq<u8>> {
    fs.map_values(|f: Vec<u8>| f@)
}

pub open spec fn is_digit(b: u8) -> bool {
    48 <= b <= 57
}

pub open spec fn digit_val(b: u8) -> int {
    b - 48
}

pub open spec fn all_digits(s: Seq<u8>) -> bool {
    forall|k: int| 0 <= k < s.len() ==> is_digit(#[trigger] s[k])
}

/// The number a digit string denotes, most significant digit first.
pub open spec fn dec_value(s: Seq<u8>) -> int
    decreases s.len(),
{
    if s.len() == 0 {
        0
    } else {
        dec_value(s.drop_last()) * 10 + digit_val(s.last())
    }
}

pub open spec fn pow10(n: nat) -> int
    decreases n,
{
    if n == 0 {
        1
    } else {
        10 * pow10((n - 1) as nat)
    }
}

pub proof fn lemma_pow10_positive(n: nat)
    ensures
        pow10(n) >= 1,
    decreases n,
{
    if n > 0 {
        lemma_pow10_positive((n - 1) as nat);
    }
}

pub proof fn lemma_dec_value_bound(s: Seq<u8>)
    requires
        all_digits(s),
    ensures
        0 <= dec_value(s) < pow10(s.len()),
    decreases s.len(),
{
    if s.len() == 0 {
    } else {
        assert(all_digits(s.drop_last()));
        lemma_dec_value_bound(s.drop_last());
        assert(is_digit(s.last()));
        assert(pow10(s.len()) == 10 * pow10((s.len() - 1) as nat));
    }
}

/// First position of `b` in `s`, or `-1` if it does not occur.
pub open spec fn find_byte(s: Seq<u8>, b: u8) -> int
    decreases s.len(),
{
    if s.len() == 0 {
        -1
    } else if s[0] == b {
        0
    } else if find_byte(s.drop_first(), b) == -1 {
        -1
    } else {
        find_byte(s.drop_first(), b) + 1
    }
}

pub proof fn lemma_find_byte(s: Seq<u8>, b: u8)
    ensures
        find_byte(s, b) == -1 <==> (forall|k: int| 0 <= k < s.len() ==> s[k] != b),
        find_byte(s, b) != -1 ==> ({
            let r = find_byte(s, b);
            &&& 0 <= r < s.len()
            &&& s[r] == b
            &&& forall|k: int| 0 <= k < r ==> s[k] != b
        }),
    decreases s.len(),
{
    if s.len() == 0 {
    } else if s[0] == b {
    } else {
        lemma_find_byte(s.drop_first(), b);
        assert(forall|k: int| 1 <= k < s.len() ==> s[k] == s.drop_first()[k - 1]);
    }
}

/// An unsigned count field: one to nineteen digits, so every accepted
/// value fits in `u64`.
pub open spec fn is_u64_bytes(s: Seq<u8>) -> bool {
    1 <= s.len() <= MAX_U64_DIGITS && all_digits(s)
}

/// Parses an unsigned decimal field. Accepts one to nineteen digits, so
/// every accepted value fits in `u64`; anything else is rejected.
pub fn parse_u64(s: &[u8]) -> (r: Option<u64>)
    ensures
        r is Some <==> is_u64_bytes(s@),
        r matches Some(v) ==> v == dec_value(s@),
{
    if s.len() < 1 || s.len() > MAX_U64_DIGITS {
        return None;
    }
    let mut acc: u64 = 0;
    let mut i: usize = 0;
    while i < s.len()
        invariant
            0 <= i <= s@.len(),
            1 <= s@.len() <= MAX_U64_DIGITS,
            all_digits(s@.take(i as int)),
            acc == dec_value(s@.take(i as int)),
            acc < pow10(i as nat),
        decreases s@.len() - i,
    {
        let b = s[i];
        if b < 48 || b > 57 {
            assert(!is_digit(s@[i as int]));
            return None;
        }
        proof {
            assert(s@.take(i + 1).drop_last() =~= s@.take(i as int));
            assert(s@.take(i + 1).last() == s@[i as int]);
            assert(all_digits(s@.take(i + 1)));
            // acc < pow10(i) and i <= 18 here, so the new accumulator
            // stays below pow10(i + 1) <= pow10(19) < u64::MAX.
            lemma_pow10_le_monotonic((i + 1) as nat, MAX_U64_DIGITS as nat);
            lemma_pow10_19_value();
        }
        acc = acc * 10 + ((b - 48) as u64);
        i += 1;
    }
    proof {
        assert(s@.take(s@.len() as int) =~= s@);
    }
    Some(acc)
}

pub proof fn lemma_pow10_le_monotonic(m: nat, n: nat)
    requires
        m <= n,
    ensures
        pow10(m) <= pow10(n),
    decreases n,
{
    if m < n {
        lemma_pow10_le_monotonic(m, (n - 1) as nat);
        lemma_pow10_positive((n - 1) as nat);
    }
}

pub proof fn lemma_pow10_19_value()
    ensures
        pow10(19) == 10_000_000_000_000_000_000,
{
    reveal_with_fuel(pow10, 20);
}

/// The sign-stripped body of a possibly negative number.
pub open spec fn unsigned_body(s: Seq<u8>) -> Seq<u8> {
    if s.len() > 0 && s[0] == 45 {
        s.drop_first()
    } else {
        s
    }
}

pub open spec fn is_negative(s: Seq<u8>) -> bool {
    s.len() > 0 && s[0] == 45
}

/// A signed integer field: an optional leading minus sign and at most
/// eighteen digits, so every accepted value fits in `i64`.
pub open spec fn is_i64_bytes(s: Seq<u8>) -> bool {
    1 <= unsigned_body(s).len() <= MAX_I64_DIGITS && all_digits(unsigned_body(s))
}

pub open spec fn i64_value(s: Seq<u8>) -> int {
    if is_negative(s) {
        -dec_value(unsigned_body(s))
    } else {
        dec_value(unsigned_body(s))
    }
}

pub fn parse_i64(s: &[u8]) -> (r: Option<i64>)
    ensures
        r is Some <==> is_i64_bytes(s@),
        r matches Some(v) ==> v == i64_value(s@),
{
    let (negative, body): (bool, &[u8]) = if s.len() > 0 && s[0] == 45 {
        (true, slice_drop_first(s))
    } else {
        (false, s)
    };
    if body.len() < 1 || body.len() > MAX_I64_DIGITS {
        return None;
    }
    match parse_u64(body) {
        None => None,
        Some(v) => {
            proof {
                lemma_dec_value_bound(body@);
                lemma_pow10_le_monotonic(body@.len(), 18);
                lemma_pow10_18_value();
            }
            if negative {
                Some(-(v as i64))
            } else {
                Some(v as i64)
            }
        },
    }
}

pub proof fn lemma_pow10_18_value()
    ensures
        pow10(18) == 1_000_000_000_000_000_000,
{
    reveal_with_fuel(pow10, 19);
}

/// The tail of a slice, dropping its first element.
fn slice_drop_first(s: &[u8]) -> (r: &[u8])
    requires
        s@.len() >= 1,
    ensures
        r@ == s@.drop_first(),
{
    let r = slice_subrange(s, 1, s.len());
    proof {
        assert(r@ =~= s@.drop_first());
    }
    r
}

/// A price field: an optional minus sign, one to fourteen integer digits,
/// and optionally a dot followed by one to four fraction digits.
pub open spec fn is_price_bytes(s: Seq<u8>) -> bool {
    let t = unsigned_body(s);
    let dot = find_byte(t, 46);
    if dot == -1 {
        1 <= t.len() <= MAX_INT_DIGITS && all_digits(t)
    } else {
        let ip = t.take(dot);
        let fp = t.skip(dot + 1);
        &&& 1 <= ip.len() <= MAX_INT_DIGITS
        &&& 1 <= fp.len() <= MAX_FRAC_DIGITS
        &&& all_digits(ip)
        &&& all_digits(fp)
    }
}

/// The scaled value a price field denotes: its exact decimal value in
/// ten-thousandths, sign included.
pub open spec fn price_value(s: Seq<u8>) -> int {
    let t = unsigned_body(s);
    let dot = find_byte(t, 46);
    let magnitude = if dot == -1 {
        dec_value(t) * 10000
    } else {
        dec_value(t.take(dot)) * 10000
            + dec_value(t.skip(dot + 1)) * pow10((MAX_FRAC_DIGITS - t.skip(dot + 1).len()) as nat)
    };
    if is_negative(s) {
        -magnitude
    } else {
        magnitude
    }
}

/// Parses a price field into its scaled representation.
pub fn parse_price(s: &[u8]) -> (r: Option<i64>)
    ensures
        r is Some <==> is_price_bytes(s@),
        r matches Some(v) ==> v == price_value(s@),
{
    let (negative, body): (bool, &[u8]) = if s.len() > 0 && s[0] == 45 {
        (true, slice_drop_first(s))
    } else {
        (false, s)
    };
    let magnitude: Option<i64> = match find_byte_in(body, 46) {
        None => {
            if body.len() < 1 || body.len() > MAX_INT_DIGITS {
                None
            } else {
                match parse_u64(body) {
                    None => None,
                    Some(units) => {
                        proof {
                            lemma_dec_value_bound(body@);
                            lemma_pow10_le_monotonic(body@.len(), 14);
                            lemma_pow10_14_value();
                        }
                        Some((units as i64) * 10000)
                    },
                }
            }
        },
        Some(dot) => {
            let ip = slice_subrange(body, 0, dot);
            let fp = slice_subrange(body, dot + 1, body.len());
            if ip.len() < 1 || ip.len() > MAX_INT_DIGITS || fp.len() < 1 || fp.len() > MAX_FRAC_DIGITS
            {
                None
            } else {
                match (parse_u64(ip), parse_u64(fp)) {
                    (Some(units), Some(frac)) => {
                        proof {
                            lemma_dec_value_bound(ip@);
                            lemma_dec_value_bound(fp@);
                            lemma_pow10_le_monotonic(ip@.len(), 14);
                            lemma_pow10_le_monotonic(fp@.len(), 4);
                            lemma_pow10_14_value();
                            lemma_pow10_4_values();
                        }
                        let units_scaled: i64 = (units as i64) * 10000;
                        let frac_scaled: i64 = if fp.len() == 1 {
                            (frac as i64) * 1000
                        } else if fp.len() == 2 {
                            (frac as i64) * 100
                        } else if fp.len() == 3 {
                            (frac as i64) * 10
                        } else {
                            frac as i64
                        };
                        Some(units_scaled + frac_scaled)
                    },
                    _ => None,
                }
            }
        },
    };
    match magnitude {
        None => None,
        Some(m) => {
            if negative {
                Some(-m)
            } else {
                Some(m)
            }
        },
    }
}

pub proof fn lemma_pow10_14_value()
    ensures
        pow10(14) == 100_000_000_000_000,
{
    reveal_with_fuel(pow10, 15);
}

pub proof fn lemma_pow10_4_values()
    ensures
        pow10(0) == 1,
        pow10(1) == 10,
        pow10(2) == 100,
        pow10(3) == 1000,
        pow10(4) == 10000,
{
    reveal_with_fuel(pow10, 5);
}

/// First position of `b` in the slice, with the spec-level `find_byte`
/// pinned to the answer.
pub fn find_byte_in(s: &[u8], b: u8) -> (r: Option<usize>)
    ensures
        r is None <==> find_byte(s@, b) == -1,
        r matches Some(i) ==> find_byte(s@, b) == i && i < s@.len() && s@[i as int] == b,
{
    let mut i: usize = 0;
    while i < s.len()
        invariant
            0 <= i <= s@.len(),
            forall|k: int| 0 <= k < i ==> s@[k] != b,
        decreases s@.len() - i,
    {
        if s[i] == b {
            proof {
                lemma_find_byte(s@, b);
            }
            return Some(i);
        }
        i += 1;
    }
    proof {
        lemma_find_byte(s@, b);
    }
    None
}

/// Copies out a subrange of a byte slice.
pub fn slice_subrange(s: &[u8], from: usize, to: usize) -> (r: &[u8])
    requires
        0 <= from <= to <= s@.len(),
    ensures
        r@ == s@.subrange(from as int, to as int),
{
    &s[from..to]
}

/// Whether two byte slices hold the same bytes.
pub fn bytes_eq(a: &[u8], b: &[u8]) -> (r: bool)
    ensures
        r <==> a@ == b@,
{
    if a.len() != b.len() {
        return false;
    }
    let mut i: usize = 0;
    while i < a.len()
        invariant
            0 <= i <= a@.len(),
            a@.len() == b@.len(),
            forall|k: int| 0 <= k < i ==> a@[k] == b@[k],
        decreases a@.len() - i,
    {
        if a[i] != b[i] {
            return false;
        }
        i += 1;
    }
    proof {
        assert(a@ =~= b@);
    }
    true
}

} // verus!
