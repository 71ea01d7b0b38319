//! The numeric-literal sub-grammar (optional sign, hex or decimal digit run,
//! optional `L` suffix, width-exact range checks) and the digit-string
//! renderers the serializer uses, each tied to a spec-level definition.

use vstd::prelude::*;
use vstd::string::*;
use vstd::arithmetic::mul::lemma_mul_inequality;
use vstd::arithmetic::div_mod::lemma_fundamental_div_mod;

use crate::ParseError;
use crate::text::{
    is_dec_digit, is_hex_digit, spec_dec_end, spec_hex_end, dec_end, hex_end,
    lemma_skip_ws_range,
};

verus! {

/// Largest magnitude any literal of this dialect may carry: 2^63, the
/// magnitude of the most negative 64-bit value.
pub open spec fn max_magnitude() -> int {
    0x8000_0000_0000_0000
}

pub open spec fn hex_digit_val(c: char) -> int {
    if is_dec_digit(c) {
        c as u32 - 48
    } else if 97 <= c as u32 <= 102 {
        c as u32 - 87
    } else if 65 <= c as u32 <= 70 {
        c as u32 - 55
    } else {
        0
    }
}

/// Value of the digit run `s[i..j]` in the given base, folded onto `acc`.
pub open spec fn spec_digits_val(s: Seq<char>, i: int, j: int, base: int, acc: int) -> int
    decreases j - i,
{
    if 0 <= i < j <= s.len() {
        spec_digits_val(s, i + 1, j, base, acc * base + hex_digit_val(s[i]))
    } else {
        acc
    }
}

pub proof fn lemma_digits_val_ge_acc(s: Seq<char>, i: int, j: int, base: int, acc: int)
    requires
        base >= 2,
        acc >= 0,
    ensures
        spec_digits_val(s, i, j, base, acc) >= acc,
    decreases j - i,
{
    if 0 <= i < j <= s.len() {
        let d = hex_digit_val(s[i]);
        assert(d >= 0);
        assert(acc * base >= acc * 2) by {
            lemma_mul_inequality(2, base, acc);
        }
        assert(acc * 2 >= acc);
        lemma_digits_val_ge_acc(s, i + 1, j, base, acc * base + d);
    }
}

pub fn digit_val(c: char) -> (r: u64)
    requires
        is_hex_digit(c),
    ensures
        r == hex_digit_val(c),
        r < 16,
{
    let u = c as u32;
    if 48 <= u && u <= 57 {
        (u - 48) as u64
    } else if 97 <= u && u <= 102 {
        (u - 87) as u64
    } else {
        (u - 55) as u64
    }
}

/// Fold the digit run `s[i..j]` onto `acc`, refusing magnitudes above 2^63.
pub fn digits_val_u64(s: &str, i: usize, j: usize, base: u64, acc: u64) -> (r: Option<u64>)
    requires
        i <= j <= s@.len(),
        base == 10 || base == 16,
        acc <= max_magnitude(),
        forall|k: int| i <= k < j ==> is_hex_digit(#[trigger] s@[k]) && hex_digit_val(s@[k]) < base,
    ensures
        r is Some <==> spec_digits_val(s@, i as int, j as int, base as int, acc as int)
            <= max_magnitude(),
        r is Some ==> r->0 == spec_digits_val(s@, i as int, j as int, base as int, acc as int),
    decreases j - i,
{
    if i >= j {
        Some(acc)
    } else {
        let d = digit_val(s.get_char(i));
        let q = (0x8000_0000_0000_0000u64 - d) / base;
        if acc > q {
            proof {
                let lim = max_magnitude();
                let di = d as int;
                let b = base as int;
                lemma_fundamental_div_mod(lim - di, b);
                assert((q as int + 1) * b <= acc as int * b) by {
                    lemma_mul_inequality(q as int + 1, acc as int, b);
                }
                assert(b * ((lim - di) / b) == ((lim - di) / b) * b) by {
                    vstd::arithmetic::mul::lemma_mul_is_commutative(b, (lim - di) / b);
                }
                assert((q as int + 1) * b == q as int * b + b) by {
                    vstd::arithmetic::mul::lemma_mul_is_distributive_add_other_way(
                        b, q as int, 1);
                }
                assert(acc as int * b + di > lim);
                lemma_digits_val_ge_acc(
                    s@, i + 1, j as int, b, acc as int * b + di);
            }
            None
        } else {
            proof {
                let lim = max_magnitude();
                let di = d as int;
                let b = base as int;
                lemma_fundamental_div_mod(lim - di, b);
                assert(acc as int * b <= q as int * b) by {
                    lemma_mul_inequality(acc as int, q as int, b);
                }
                assert(b * ((lim - di) / b) == ((lim - di) / b) * b) by {
                    vstd::arithmetic::mul::lemma_mul_is_commutative(b, (lim - di) / b);
                }
                assert(acc as int * b + di <= lim);
            }
            digits_val_u64(s, i + 1, j, base, acc * base + d)
        }
    }
}

/// Position after an optional `L` suffix.
pub open spec fn spec_after_l(s: Seq<char>, e: int) -> int {
    if 0 <= e < s.len() && s[e] == 'L' {
        e + 1
    } else {
        e
    }
}

/// The raw literal grammar: optional `-`, then a `0x`/`0X` hexadecimal run or
/// a decimal run, then an optional `L`. Yields the sign, the magnitude (as an
/// unbounded integer) and the position after the literal.
pub open spec fn spec_parse_int_raw(s: Seq<char>, i: int) -> Option<(bool, int, int)> {
    if !(0 <= i <= s.len()) {
        None
    } else {
        let neg = i < s.len() && s[i] == '-';
        let i1 = if neg {
            i + 1
        } else {
            i
        };
        if i1 + 2 <= s.len() && s[i1] == '0' && (s[i1 + 1] == 'x' || s[i1 + 1] == 'X')
            && spec_hex_end(s, i1 + 2) > i1 + 2 {
            let e = spec_hex_end(s, i1 + 2);
            Some((neg, spec_digits_val(s, i1 + 2, e, 16, 0), spec_after_l(s, e)))
        } else if spec_dec_end(s, i1) > i1 {
            let e = spec_dec_end(s, i1);
            Some((neg, spec_digits_val(s, i1, e, 10, 0), spec_after_l(s, e)))
        } else {
            None
        }
    }
}

/// The signed mathematical value and end position of the literal at `i`.
pub open spec fn int_lit_value(s: Seq<char>, i: int) -> Option<(int, int)> {
    match spec_parse_int_raw(s, i) {
        Some((neg, mag, j)) => Some(
            (
                if neg {
                    -mag
                } else {
                    mag
                },
                j,
            ),
        ),
        None => None,
    }
}

pub proof fn lemma_digit_run_is_digits(s: Seq<char>, i: int, j: int, hex: bool)
    requires
        j == if hex {
            spec_hex_end(s, i)
        } else {
            spec_dec_end(s, i)
        },
        0 <= i <= s.len(),
    ensures
        i <= j <= s.len(),
        forall|k: int| i <= k < j ==> is_hex_digit(#[trigger] s[k]) && hex_digit_val(s[k]) < if hex {
            16int
        } else {
            10int
        },
    decreases s.len() - i,
{
    if hex {
        if i < s.len() && is_hex_digit(s[i]) {
            lemma_digit_run_is_digits(s, i + 1, j, hex);
        }
    } else {
        if i < s.len() && is_dec_digit(s[i]) {
            lemma_digit_run_is_digits(s, i + 1, j, hex);
        }
    }
}

/// The raw grammar yields a nonnegative magnitude and stays within `s`.
pub proof fn lemma_int_raw_bounds(s: Seq<char>, i: int)
    ensures
        match spec_parse_int_raw(s, i) {
            Some((neg, mag, j)) => mag >= 0 && i <= j <= s.len(),
            None => true,
        },
{
    if 0 <= i <= s.len() {
        let neg = i < s.len() && s[i] == '-';
        let i1 = if neg {
            i + 1
        } else {
            i
        };
        if i1 + 2 <= s.len() && s[i1] == '0' && (s[i1 + 1] == 'x' || s[i1 + 1] == 'X')
            && spec_hex_end(s, i1 + 2) > i1 + 2 {
            let e = spec_hex_end(s, i1 + 2);
            lemma_digit_run_is_digits(s, i1 + 2, e, true);
            lemma_digits_val_ge_acc(s, i1 + 2, e, 16, 0);
        } else if spec_dec_end(s, i1) > i1 {
            let e = spec_dec_end(s, i1);
            lemma_digit_run_is_digits(s, i1, e, false);
            lemma_digits_val_ge_acc(s, i1, e, 10, 0);
        }
    }
}

/// Parse the raw literal at `i`: its sign, magnitude and end position.
/// The magnitude is exact whenever it is at most 2^63; beyond that the
/// literal is rejected as out of range for every width this dialect has.
pub fn parse_int_raw(s: &str, i: usize) -> (r: Result<(bool, u64, usize), ParseError>)
    requires
        i <= s@.len(),
    ensures
        match spec_parse_int_raw(s@, i as int) {
            Some((neg, mag, j)) => {
                if mag <= max_magnitude() {
                    r matches Ok(q) && q.0 == neg && q.1 == mag && q.2 == j
                } else {
                    r is Err && r->Err_0 is LiteralOutOfRange
                }
            },
            None => r is Err && r->Err_0 is MalformedOperand,
        },
        r is Ok ==> i <= r->Ok_0.2 <= s@.len(),
{
    let sl = s.unicode_len();
    let neg = i < sl && s.get_char(i) == '-';
    let i1 = if neg {
        i + 1
    } else {
        i
    };
    proof {
        lemma_skip_ws_range(s@, i1 as int);
    }
    if sl - i1 >= 2 && s.get_char(i1) == '0'
        && (s.get_char(i1 + 1) == 'x' || s.get_char(i1 + 1) == 'X') && {
        let he = hex_end(s, i1 + 2);
        he > i1 + 2
    } {
        let e = hex_end(s, i1 + 2);
        proof {
            lemma_digit_run_is_digits(s@, i1 + 2, e as int, true);
        }
        match digits_val_u64(s, i1 + 2, e, 16, 0) {
            Some(mag) => {
                let j = if e < sl && s.get_char(e) == 'L' {
                    e + 1
                } else {
                    e
                };
                Ok((neg, mag, j))
            },
            None => Err(ParseError::LiteralOutOfRange(i)),
        }
    } else if {
        let de = dec_end(s, i1);
        de > i1
    } {
        let e = dec_end(s, i1);
        proof {
            lemma_digit_run_is_digits(s@, i1 as int, e as int, false);
        }
        match digits_val_u64(s, i1, e, 10, 0) {
            Some(mag) => {
                let j = if e < sl && s.get_char(e) == 'L' {
                    e + 1
                } else {
                    e
                };
                Ok((neg, mag, j))
            },
            None => Err(ParseError::LiteralOutOfRange(i)),
        }
    } else {
        Err(ParseError::MalformedOperand(i))
    }
}

/// Parse a literal that must fit a signed 8-bit value.
pub fn parse_int_lit_i8(s: &str, i: usize) -> (r: Result<(i8, usize), ParseError>)
    requires
        i <= s@.len(),
    ensures
        match int_lit_value(s@, i as int) {
            Some((val, j)) => {
                if i8::MIN <= val <= i8::MAX {
                    r matches Ok(q) && q.0 == val && q.1 == j
                } else {
                    r is Err && r->Err_0 is LiteralOutOfRange
                }
            },
            None => r is Err && r->Err_0 is MalformedOperand,
        },
        r is Ok ==> i <= r->Ok_0.1 <= s@.len(),
{
    proof {
        lemma_int_raw_bounds(s@, i as int);
    }
    match parse_int_raw(s, i) {
        Ok((neg, mag, j)) => {
            if neg {
                if mag <= 0x80 {
                    Ok((-(mag as i64) as i8, j))
                } else {
                    Err(ParseError::LiteralOutOfRange(i))
                }
            } else {
                if mag <= 0x7f {
                    Ok((mag as i8, j))
                } else {
                    Err(ParseError::LiteralOutOfRange(i))
                }
            }
        },
        Err(e) => Err(e),
    }
}

/// Parse a literal that must fit a signed 16-bit value.
pub fn parse_int_lit_i16(s: &str, i: usize) -> (r: Result<(i16, usize), ParseError>)
    requires
        i <= s@.len(),
    ensures
        match int_lit_value(s@, i as int) {
            Some((val, j)) => {
                if i16::MIN <= val <= i16::MAX {
                    r matches Ok(q) && q.0 == val && q.1 == j
                } else {
                    r is Err && r->Err_0 is LiteralOutOfRange
                }
            },
            None => r is Err && r->Err_0 is MalformedOperand,
        },
        r is Ok ==> i <= r->Ok_0.1 <= s@.len(),
{
    proof {
        lemma_int_raw_bounds(s@, i as int);
    }
    match parse_int_raw(s, i) {
        Ok((neg, mag, j)) => {
            if neg {
                if mag <= 0x8000 {
                    Ok((-(mag as i64) as i16, j))
                } else {
                    Err(ParseError::LiteralOutOfRange(i))
                }
            } else {
                if mag <= 0x7fff {
                    Ok((mag as i16, j))
                } else {
                    Err(ParseError::LiteralOutOfRange(i))
                }
            }
        },
        Err(e) => Err(e),
    }
}

/// Parse a literal that must fit a signed 32-bit value.
pub fn parse_int_lit_i32(s: &str, i: usize) -> (r: Result<(i32, usize), ParseError>)
    requires
        i <= s@.len(),
    ensures
        match int_lit_value(s@, i as int) {
            Some((val, j)) => {
                if i32::MIN <= val <= i32::MAX {
                    r matches Ok(q) && q.0 == val && q.1 == j
                } else {
                    r is Err && r->Err_0 is LiteralOutOfRange
                }
            },
            None => r is Err && r->Err_0 is MalformedOperand,
        },
        r is Ok ==> i <= r->Ok_0.1 <= s@.len(),
{
    proof {
        lemma_int_raw_bounds(s@, i as int);
    }
    match parse_int_raw(s, i) {
        Ok((neg, mag, j)) => {
            if neg {
                if mag <= 0x8000_0000 {
                    Ok((-(mag as i64) as i32, j))
                } else {
                    Err(ParseError::LiteralOutOfRange(i))
                }
            } else {
                if mag <= 0x7fff_ffff {
                    Ok((mag as i32, j))
                } else {
                    Err(ParseError::LiteralOutOfRange(i))
                }
            }
        },
        Err(e) => Err(e),
    }
}

/// Parse a literal that must fit a signed 64-bit value.
pub fn parse_int_lit_i64(s: &str, i: usize) -> (r: Result<(i64, usize), ParseError>)
    requires
        i <= s@.len(),
    ensures
        match int_lit_value(s@, i as int) {
            Some((val, j)) => {
                if i64::MIN <= val <= i64::MAX {
                    r matches Ok(q) && q.0 == val && q.1 == j
                } else {
                    r is Err && r->Err_0 is LiteralOutOfRange
                }
            },
            None => r is Err && r->Err_0 is MalformedOperand,
        },
        r is Ok ==> i <= r->Ok_0.1 <= s@.len(),
{
    proof {
        lemma_int_raw_bounds(s@, i as int);
    }
    match parse_int_raw(s, i) {
        Ok((neg, mag, j)) => {
            if neg {
                if mag == 0x8000_0000_0000_0000 {
                    Ok((i64::MIN, j))
                } else {
                    Ok((-(mag as i64), j))
                }
            } else {
                if mag <= 0x7fff_ffff_ffff_ffff {
                    Ok((mag as i64, j))
                } else {
                    Err(ParseError::LiteralOutOfRange(i))
                }
            }
        },
        Err(e) => Err(e),
    }
}

/// Parse a literal that must fit an unsigned 32-bit value. A negative
/// magnitude is out of range here; `-0` is accepted as zero.
pub fn parse_int_lit_u32(s: &str, i: usize) -> (r: Result<(u32, usize), ParseError>)
    requires
        i <= s@.len(),
    ensures
        match int_lit_value(s@, i as int) {
            Some((val, j)) => {
                if 0 <= val <= u32::MAX {
                    r matches Ok(q) && q.0 == val && q.1 == j
                } else {
                    r is Err && r->Err_0 is LiteralOutOfRange
                }
            },
            None => r is Err && r->Err_0 is MalformedOperand,
        },
        r is Ok ==> i <= r->Ok_0.1 <= s@.len(),
{
    proof {
        lemma_int_raw_bounds(s@, i as int);
    }
    match parse_int_raw(s, i) {
        Ok((neg, mag, j)) => {
            if neg && mag > 0 {
                Err(ParseError::LiteralOutOfRange(i))
            } else if mag <= 0xffff_ffff {
                Ok((mag as u32, j))
            } else {
                Err(ParseError::LiteralOutOfRange(i))
            }
        },
        Err(e) => Err(e),
    }
}

// ---------------------------------------------------------------------------
// Digit-string rendering.
// ---------------------------------------------------------------------------

pub open spec fn spec_dec_digit(d: int) -> char {
    ((48 + d) as u8) as char
}

pub open spec fn spec_hex_digit(d: int) -> char {
    if d < 10 {
        ((48 + d) as u8) as char
    } else {
        ((87 + d) as u8) as char
    }
}

/// Decimal rendering of a nonnegative value, most significant digit first.
pub open spec fn spec_dec_u64(n: int) -> Seq<char>
    decreases n,
{
    if n < 10 {
        seq![spec_dec_digit(n)]
    } else {
        spec_dec_u64(n / 10).push(spec_dec_digit(n % 10))
    }
}

/// Lowercase hexadecimal rendering of a nonnegative value.
pub open spec fn spec_hex_u64(n: int) -> Seq<char>
    decreases n,
{
    if n < 16 {
        seq![spec_hex_digit(n)]
    } else {
        spec_hex_u64(n / 16).push(spec_hex_digit(n % 16))
    }
}

/// Signed decimal rendering: a leading `-` before the magnitude if negative.
pub open spec fn spec_dec_signed(v: int) -> Seq<char> {
    if v < 0 {
        seq!['-'] + spec_dec_u64(-v)
    } else {
        spec_dec_u64(v)
    }
}

/// A single hexadecimal digit as a string slice.
pub fn hex_digit_str(d: u64) -> (r: &'static str)
    requires
        d < 16,
    ensures
        r@ =~= seq![spec_hex_digit(d as int)],
        d < 10 ==> r@ =~= seq![spec_dec_digit(d as int)],
{
    proof {
        reveal_strlit("0");
        reveal_strlit("1");
        reveal_strlit("2");
        reveal_strlit("3");
        reveal_strlit("4");
        reveal_strlit("5");
        reveal_strlit("6");
        reveal_strlit("7");
        reveal_strlit("8");
        reveal_strlit("9");
        reveal_strlit("a");
        reveal_strlit("b");
        reveal_strlit("c");
        reveal_strlit("d");
        reveal_strlit("e");
        reveal_strlit("f");
    }
    if d == 0 {
        "0"
    } else if d == 1 {
        "1"
    } else if d == 2 {
        "2"
    } else if d == 3 {
        "3"
    } else if d == 4 {
        "4"
    } else if d == 5 {
        "5"
    } else if d == 6 {
        "6"
    } else if d == 7 {
        "7"
    } else if d == 8 {
        "8"
    } else if d == 9 {
        "9"
    } else if d == 10 {
        "a"
    } else if d == 11 {
        "b"
    } else if d == 12 {
        "c"
    } else if d == 13 {
        "d"
    } else if d == 14 {
        "e"
    } else {
        "f"
    }
}

/// Decimal rendering of an unsigned 64-bit value.
pub fn u64_to_dec(n: u64) -> (r: String)
    ensures
        r@ =~= spec_dec_u64(n as int),
    decreases n,
{
    if n < 10 {
        hex_digit_str(n).to_owned()
    } else {
        let mut s = u64_to_dec(n / 10);
        s.append(hex_digit_str(n % 10));
        s
    }
}

/// Lowercase hexadecimal rendering of an unsigned 64-bit value.
pub fn u64_to_hex(n: u64) -> (r: String)
    ensures
        r@ =~= spec_hex_u64(n as int),
    decreases n,
{
    if n < 16 {
        hex_digit_str(n).to_owned()
    } else {
        let mut s = u64_to_hex(n / 16);
        s.append(hex_digit_str(n % 16));
        s
    }
}

/// Signed decimal rendering of a 64-bit value.
pub fn i64_to_dec(v: i64) -> (r: String)
    ensures
        r@ =~= spec_dec_signed(v as int),
{
    proof {
        reveal_strlit("-");
    }
    if v < 0 {
        let mag: u64 = if v == i64::MIN {
            0x8000_0000_0000_0000u64
        } else {
            (-v) as u64
        };
        let mut s = String::from_str("-");
        let m = u64_to_dec(mag);
        s.append(m.as_str());
        s
    } else {
        u64_to_dec(v as u64)
    }
}

/// Exactly four hexadecimal digits of a 16-bit value, zero padded.
pub open spec fn spec_hex4(n: int) -> Seq<char> {
    seq![
        spec_hex_digit((n / 4096) % 16),
        spec_hex_digit((n / 256) % 16),
        spec_hex_digit((n / 16) % 16),
        spec_hex_digit(n % 16),
    ]
}

pub fn u16_to_hex4(n: u16) -> (r: String)
    ensures
        r@ =~= spec_hex4(n as int),
{
    let w = n as u64;
    let mut s = hex_digit_str((w / 4096) % 16).to_owned();
    s.append(hex_digit_str((w / 256) % 16));
    s.append(hex_digit_str((w / 16) % 16));
    s.append(hex_digit_str(w % 16));
    s
}

} // verus!
