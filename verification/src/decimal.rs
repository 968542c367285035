//! Decimal text for 128-bit values.
//!
//! Opaque session tokens travel to clients as the decimal rendering of a
//! 128-bit value, and come back the same way; signed tokens carry a user id
//! rendered the same way in their subject field. Rendering and parsing are
//! verified against one mathematical definition of the decimal form, and
//! parsing inverts rendering.
use vstd::prelude::*;
use vstd::string::StrSliceExecFns;
use vstd::string::StringExecFns;

verus! {

/// The value of the largest 128-bit integer.
pub const U128_MAX: u128 = 0xffffffffffffffffffffffffffffffff;

/// The character for one digit value.
pub open spec fn digit_char(d: int) -> char {
    if d == 0 {
        '0'
    } else if d == 1 {
        '1'
    } else if d == 2 {
        '2'
    } else if d == 3 {
        '3'
    } else if d == 4 {
        '4'
    } else if d == 5 {
        '5'
    } else if d == 6 {
        '6'
    } else if d == 7 {
        '7'
    } else if d == 8 {
        '8'
    } else {
        '9'
    }
}

pub open spec fn is_digit(c: char) -> bool {
    48 <= c as u32 <= 57
}

pub open spec fn digit_val(c: char) -> nat
    recommends
        is_digit(c),
{
    (c as u32 - 48) as nat
}

/// The canonical decimal rendering of `n`: most significant digit first, no
/// leading zero except for zero itself.
pub open spec fn dec_of(n: nat) -> Seq<char>
    decreases n,
{
    if n < 10 {
        seq![digit_char(n as int)]
    } else {
        dec_of(n / 10).push(digit_char((n % 10) as int))
    }
}

/// Whether every character of `s` is a decimal digit.
pub open spec fn is_digits(s: Seq<char>) -> bool {
    forall|i: int| 0 <= i < s.len() ==> is_digit(#[trigger] s[i])
}

/// The numeric value of a digit string, leading zeros admitted.
pub open spec fn dec_value(s: Seq<char>) -> nat
    decreases s.len(),
{
    if s.len() == 0 {
        0
    } else {
        dec_value(s.drop_last()) * 10 + digit_val(s.last())
    }
}

/// The rendering of any value is a non-empty digit string that evaluates back
/// to the value: parsing inverts rendering.
pub proof fn lemma_dec_of_round_trip(n: nat)
    ensures
        dec_of(n).len() >= 1,
        is_digits(dec_of(n)),
        dec_value(dec_of(n)) == n,
    decreases n,
{
    if n < 10 {
        assert(dec_of(n) =~= seq![digit_char(n as int)]);
        assert(dec_of(n).drop_last() =~= Seq::<char>::empty());
        assert(dec_value(dec_of(n)) == dec_value(dec_of(n).drop_last()) * 10 + digit_val(
            dec_of(n).last(),
        ));
    } else {
        lemma_dec_of_round_trip(n / 10);
        let s = dec_of(n);
        assert(s =~= dec_of(n / 10).push(digit_char((n % 10) as int)));
        assert(s.drop_last() =~= dec_of(n / 10));
        assert(dec_value(s) == dec_value(dec_of(n / 10)) * 10 + digit_val(
            digit_char((n % 10) as int),
        ));
        assert(digit_val(digit_char((n % 10) as int)) == n % 10);
        vstd::arithmetic::div_mod::lemma_fundamental_div_mod(n as int, 10);
        assert(forall|i: int|
            0 <= i < s.len() ==> is_digit(#[trigger] s[i])) by {
            assert(forall|i: int|
                0 <= i < s.len() - 1 ==> s[i] == #[trigger] dec_of(n / 10)[i]);
        }
    }
}

/// Extending a digit string on the right never lowers its value: the value of
/// a prefix bounds the value of the whole.
pub proof fn lemma_dec_value_prefix(s: Seq<char>, i: int)
    requires
        0 <= i <= s.len(),
    ensures
        dec_value(s.subrange(0, i)) <= dec_value(s),
    decreases s.len() - i,
{
    if i == s.len() {
        assert(s.subrange(0, i) =~= s);
    } else {
        lemma_dec_value_prefix(s, i + 1);
        let p = s.subrange(0, i + 1);
        assert(p.drop_last() =~= s.subrange(0, i));
        assert(dec_value(p) == dec_value(s.subrange(0, i)) * 10 + digit_val(s[i]));
    }
}

/// One digit of rendered text, as a borrowed string.
fn digit_str(d: u8) -> (r: &'static str)
    requires
        d < 10,
    ensures
        r@ =~= seq![digit_char(d as int)],
{
    proof {
        reveal_strlit("0");
        reveal_strlit("1");
        reveal_strlit("2");
        reveal_strlit("3");
        reveal_strlit("4");
        reveal_strlit("5");
        reveal_strlit("6");
        reveal_strlit("7");
        reveal_strlit("8");
        reveal_strlit("9");
    }
    match d {
        0 => "0",
        1 => "1",
        2 => "2",
        3 => "3",
        4 => "4",
        5 => "5",
        6 => "6",
        7 => "7",
        8 => "8",
        _ => "9",
    }
}

/// The digit characters for the byte sequence `ds` read back to front; the
/// rendering loop collects digits least significant first, and this names the
/// text they spell once reversed.
pub open spec fn chars_of_rev(ds: Seq<u8>) -> Seq<char> {
    Seq::new(ds.len(), |i: int| digit_char(ds[ds.len() - 1 - i] as int))
}

/// Render `n` in decimal: the canonical form, most significant digit first,
/// without leading zeros.
pub fn u128_to_dec_string(n: u128) -> (r: String)
    ensures
        r@ == dec_of(n as nat),
{
    let mut digits: Vec<u8> = Vec::new();
    let mut m: u128 = n;
    if m == 0 {
        proof {
            reveal_strlit("0");
        }
        let r = "0".to_owned();
        assert(r@ =~= dec_of(0));
        return r;
    }
    loop
        invariant_except_break
            m > 0,
            dec_of(n as nat) =~= dec_of(m as nat) + chars_of_rev(digits@),
        invariant
            forall|j: int| 0 <= j < digits@.len() ==> #[trigger] digits@[j] < 10,
        ensures
            dec_of(n as nat) =~= chars_of_rev(digits@),
        decreases m,
    {
        let d: u8 = (m % 10) as u8;
        let ghost old_digits = digits@;
        let ghost old_m = m as nat;
        digits.push(d);
        m = m / 10;
        proof {
            assert(chars_of_rev(old_digits.push(d)) =~= seq![digit_char(d as int)] + chars_of_rev(
                old_digits,
            ));
            if old_m >= 10 {
                assert(dec_of(old_m) =~= dec_of(old_m / 10).push(
                    digit_char((old_m % 10) as int),
                ));
                assert(dec_of(old_m / 10).push(digit_char(d as int)) + chars_of_rev(old_digits)
                    =~= dec_of(old_m / 10) + (seq![digit_char(d as int)] + chars_of_rev(
                    old_digits,
                )));
            } else {
                assert(dec_of(old_m) =~= seq![digit_char(old_m as int)]);
                assert(dec_of(old_m) + chars_of_rev(old_digits) =~= seq![digit_char(d as int)]
                    + chars_of_rev(old_digits));
            }
        }
        if m == 0 {
            break;
        }
    }
    assert(dec_of(n as nat) =~= chars_of_rev(digits@));
    let count = digits.len();
    let mut out = String::new();
    let mut j: usize = 0;
    while j < count
        invariant
            j <= count,
            count == digits@.len(),
            forall|k: int| 0 <= k < digits@.len() ==> #[trigger] digits@[k] < 10,
            out@ =~= chars_of_rev(digits@).subrange(0, j as int),
        decreases count - j,
    {
        let piece = digit_str(digits[count - 1 - j]);
        out.append(piece);
        j = j + 1;
        proof {
            assert(out@ =~= chars_of_rev(digits@).subrange(0, j as int));
        }
    }
    assert(out@ =~= chars_of_rev(digits@));
    out
}

/// Parse decimal text into a 128-bit value.
///
/// Succeeds exactly on non-empty all-digit strings whose value fits, and then
/// returns that value; anything else (empty text, a non-digit, overflow)
/// gives nothing.
pub fn parse_dec_u128(s: &str) -> (r: Option<u128>)
    ensures
        r matches Some(v) ==> s@.len() >= 1 && is_digits(s@) && v as nat == dec_value(s@),
        s@.len() >= 1 && is_digits(s@) && dec_value(s@) <= U128_MAX ==> r is Some,
{
    let len = s.unicode_len();
    if len == 0 {
        return None;
    }
    let mut i: usize = 0;
    let mut acc: u128 = 0;
    while i < len
        invariant
            0 < len == s@.len(),
            i <= len,
            forall|j: int| 0 <= j < i ==> is_digit(#[trigger] s@[j]),
            acc as nat == dec_value(s@.subrange(0, i as int)),
        decreases len - i,
    {
        let c = s.get_char(i);
        let u = c as u32;
        if u < 48 || u > 57 {
            return None;
        }
        let d: u128 = (u - 48) as u128;
        proof {
            assert(s@.subrange(0, i + 1).drop_last() =~= s@.subrange(0, i as int));
            assert(dec_value(s@.subrange(0, i + 1)) == dec_value(s@.subrange(0, i as int)) * 10
                + digit_val(s@[i as int]));
        }
        if acc > (U128_MAX - d) / 10 {
            proof {
                vstd::arithmetic::div_mod::lemma_fundamental_div_mod(
                    (U128_MAX - d) as int,
                    10,
                );
                assert(acc as nat * 10 + d as nat > U128_MAX as nat);
                if is_digits(s@) {
                    lemma_dec_value_prefix(s@, i + 1);
                }
            }
            return None;
        }
        proof {
            vstd::arithmetic::div_mod::lemma_fundamental_div_mod((U128_MAX - d) as int, 10);
            assert(acc as nat * 10 + d as nat <= U128_MAX as nat);
        }
        acc = acc * 10 + d;
        i = i + 1;
    }
    proof {
        assert(s@.subrange(0, len as int) =~= s@);
    }
    Some(acc)
}

} // verus!
