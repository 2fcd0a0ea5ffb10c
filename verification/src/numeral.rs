//! Decimal and hexadecimal numerals: the value of a digit string, parsers
//! that accept exactly the digit strings whose value fits a bound, and
//! renderers that produce the canonical digit string of a value.
//!
//! Backends hand window ids around as `0x`-prefixed hexadecimal or plain
//! decimal text, and the persisted index mirror is a plain decimal value;
//! every conversion in the crate goes through this module.

use vstd::prelude::*;

verus! {

pub open spec fn is_dec_digit(c: char) -> bool {
    48 <= c as u32 <= 57
}

pub open spec fn dec_digit_val(c: char) -> int {
    c as u32 - 48
}

pub open spec fn is_hex_digit(c: char) -> bool {
    ||| 48 <= c as u32 <= 57
    ||| 97 <= c as u32 <= 102
    ||| 65 <= c as u32 <= 70
}

pub open spec fn hex_digit_val(c: char) -> int {
    if 48 <= c as u32 <= 57 {
        c as u32 - 48
    } else if 97 <= c as u32 <= 102 {
        c as u32 - 87
    } else {
        c as u32 - 55
    }
}

pub open spec fn all_dec_digits(s: Seq<char>) -> bool {
    forall|i: int| 0 <= i < s.len() ==> is_dec_digit(#[trigger] s[i])
}

pub open spec fn all_hex_digits(s: Seq<char>) -> bool {
    forall|i: int| 0 <= i < s.len() ==> is_hex_digit(#[trigger] s[i])
}

/// The value of a decimal digit string, most significant digit first.
pub open spec fn dec_value(s: Seq<char>) -> int
    decreases s.len(),
{
    if s.len() == 0 {
        0
    } else {
        dec_value(s.drop_last()) * 10 + dec_digit_val(s.last())
    }
}

/// The value of a hexadecimal digit string, most significant digit first.
pub open spec fn hex_value(s: Seq<char>) -> int
    decreases s.len(),
{
    if s.len() == 0 {
        0
    } else {
        hex_value(s.drop_last()) * 16 + hex_digit_val(s.last())
    }
}

/// What parsing `s` as a decimal numeral bounded by `bound` yields: the
/// string must be non-empty, all digits, and its value must fit.
pub open spec fn parse_dec_spec(s: Seq<char>, bound: int) -> Option<int> {
    if s.len() > 0 && all_dec_digits(s) && dec_value(s) <= bound {
        Some(dec_value(s))
    } else {
        None
    }
}

/// What parsing `s` as a hexadecimal numeral bounded by `bound` yields.
pub open spec fn parse_hex_spec(s: Seq<char>, bound: int) -> Option<int> {
    if s.len() > 0 && all_hex_digits(s) && hex_value(s) <= bound {
        Some(hex_value(s))
    } else {
        None
    }
}

proof fn lemma_dec_value_nonneg(s: Seq<char>)
    requires
        all_dec_digits(s),
    ensures
        dec_value(s) >= 0,
    decreases s.len(),
{
    if s.len() > 0 {
        assert(all_dec_digits(s.drop_last()));
        lemma_dec_value_nonneg(s.drop_last());
    }
}

proof fn lemma_hex_value_nonneg(s: Seq<char>)
    requires
        all_hex_digits(s),
    ensures
        hex_value(s) >= 0,
    decreases s.len(),
{
    if s.len() > 0 {
        assert(all_hex_digits(s.drop_last()));
        lemma_hex_value_nonneg(s.drop_last());
    }
}

/// Extending a digit string can only increase its value.
proof fn lemma_dec_value_prefix_le(s: Seq<char>, i: int)
    requires
        all_dec_digits(s),
        0 <= i <= s.len(),
    ensures
        dec_value(s.subrange(0, i)) <= dec_value(s),
    decreases s.len() - i,
{
    if i < s.len() {
        let t = s.subrange(0, i + 1);
        assert(t.drop_last() =~= s.subrange(0, i));
        assert(all_dec_digits(t.drop_last()));
        lemma_dec_value_nonneg(t.drop_last());
        assert(dec_value(t) == dec_value(s.subrange(0, i)) * 10 + dec_digit_val(s[i]));
        lemma_dec_value_prefix_le(s, i + 1);
        assert(s.subrange(0, s.len() as int) =~= s);
    } else {
        assert(s.subrange(0, i) =~= s);
    }
}

proof fn lemma_hex_value_prefix_le(s: Seq<char>, i: int)
    requires
        all_hex_digits(s),
        0 <= i <= s.len(),
    ensures
        hex_value(s.subrange(0, i)) <= hex_value(s),
    decreases s.len() - i,
{
    if i < s.len() {
        let t = s.subrange(0, i + 1);
        assert(t.drop_last() =~= s.subrange(0, i));
        assert(all_hex_digits(t.drop_last()));
        lemma_hex_value_nonneg(t.drop_last());
        assert(hex_value(t) == hex_value(s.subrange(0, i)) * 16 + hex_digit_val(s[i]));
        lemma_hex_value_prefix_le(s, i + 1);
        assert(s.subrange(0, s.len() as int) =~= s);
    } else {
        assert(s.subrange(0, i) =~= s);
    }
}

/// Parse a decimal numeral whose value fits a `u64`.
pub fn parse_dec_u64(s: &str) -> (r: Option<u64>)
    ensures
        r is Some <==> parse_dec_spec(s@, u64::MAX as int) is Some,
        r matches Some(v) ==> parse_dec_spec(s@, u64::MAX as int) == Some(v as int),
{
    let n = s.unicode_len();
    if n == 0 {
        return None;
    }
    let mut acc: u64 = 0;
    let mut i: usize = 0;
    while i < n
        invariant
            0 < n == s@.len(),
            i <= n,
            all_dec_digits(s@.subrange(0, i as int)),
            acc as int == dec_value(s@.subrange(0, i as int)),
        decreases n - i,
    {
        let c = s.get_char(i);
        let u = c as u32;
        if u < 48 || u > 57 {
            assert(!all_dec_digits(s@));
            return None;
        }
        let d: u64 = (u - 48) as u64;
        let next10: u128 = acc as u128 * 10 + d as u128;
        proof {
            let t = s@.subrange(0, i + 1);
            assert(t.drop_last() =~= s@.subrange(0, i as int));
            assert(t.last() == s@[i as int]);
            assert(dec_value(t) == acc * 10 + dec_digit_val(s@[i as int]));
        }
        if next10 > u64::MAX as u128 {
            proof {
                lemma_dec_overflow_rejects(s@, i + 1);
            }
            return None;
        }
        acc = next10 as u64;
        i += 1;
    }
    proof {
        assert(s@.subrange(0, n as int) =~= s@);
    }
    Some(acc)
}

/// When a prefix of `s` already exceeds the `u64` range, no parse of the
/// whole of `s` can succeed: either a later character is not a digit, or
/// the full value is larger still.
proof fn lemma_dec_overflow_rejects(s: Seq<char>, i: int)
    requires
        0 <= i <= s.len(),
        all_dec_digits(s.subrange(0, i)),
        dec_value(s.subrange(0, i)) > u64::MAX as int,
    ensures
        parse_dec_spec(s, u64::MAX as int) is None,
{
    if all_dec_digits(s) {
        lemma_dec_value_prefix_le(s, i);
    }
}

/// Parse a decimal numeral whose value fits a `usize`.
pub fn parse_dec_usize(s: &str) -> (r: Option<usize>)
    ensures
        r is Some <==> parse_dec_spec(s@, usize::MAX as int) is Some,
        r matches Some(v) ==> parse_dec_spec(s@, usize::MAX as int) == Some(v as int),
{
    match parse_dec_u64(s) {
        Some(v) => {
            if v <= usize::MAX as u64 {
                Some(v as usize)
            } else {
                None
            }
        },
        None => None,
    }
}

/// Parse a decimal numeral whose value fits a `u32`.
pub fn parse_dec_u32(s: &str) -> (r: Option<u32>)
    ensures
        r is Some <==> parse_dec_spec(s@, u32::MAX as int) is Some,
        r matches Some(v) ==> parse_dec_spec(s@, u32::MAX as int) == Some(v as int),
{
    match parse_dec_u64(s) {
        Some(v) => {
            if v <= u32::MAX as u64 {
                Some(v as u32)
            } else {
                None
            }
        },
        None => None,
    }
}

/// Parse a hexadecimal numeral (either letter case) whose value fits a
/// `u32`.
pub fn parse_hex_u32(s: &str) -> (r: Option<u32>)
    ensures
        r is Some <==> parse_hex_spec(s@, u32::MAX as int) is Some,
        r matches Some(v) ==> parse_hex_spec(s@, u32::MAX as int) == Some(v as int),
{
    let n = s.unicode_len();
    if n == 0 {
        return None;
    }
    let mut acc: u64 = 0;
    let mut i: usize = 0;
    while i < n
        invariant
            0 < n == s@.len(),
            i <= n,
            all_hex_digits(s@.subrange(0, i as int)),
            acc as int == hex_value(s@.subrange(0, i as int)),
            acc <= u32::MAX,
        decreases n - i,
    {
        let c = s.get_char(i);
        let u = c as u32;
        let d: u64 = if 48 <= u && u <= 57 {
            (u - 48) as u64
        } else if 97 <= u && u <= 102 {
            (u - 87) as u64
        } else if 65 <= u && u <= 70 {
            (u - 55) as u64
        } else {
            assert(!all_hex_digits(s@));
            return None;
        };
        let next: u64 = acc * 16 + d;
        proof {
            let t = s@.subrange(0, i + 1);
            assert(t.drop_last() =~= s@.subrange(0, i as int));
            assert(t.last() == s@[i as int]);
            assert(hex_value(t) == acc * 16 + hex_digit_val(s@[i as int]));
        }
        if next > u32::MAX as u64 {
            proof {
                if all_hex_digits(s@) {
                    lemma_hex_value_prefix_le(s@, i + 1);
                }
            }
            return None;
        }
        acc = next;
        i += 1;
    }
    proof {
        assert(s@.subrange(0, n as int) =~= s@);
    }
    Some(acc as u32)
}

pub open spec fn dec_digit_char(d: int) -> char {
    if d == 0 { '0' }
    else if d == 1 { '1' }
    else if d == 2 { '2' }
    else if d == 3 { '3' }
    else if d == 4 { '4' }
    else if d == 5 { '5' }
    else if d == 6 { '6' }
    else if d == 7 { '7' }
    else if d == 8 { '8' }
    else { '9' }
}

pub open spec fn hex_digit_char(d: int) -> char {
    if d < 10 { dec_digit_char(d) }
    else if d == 10 { 'a' }
    else if d == 11 { 'b' }
    else if d == 12 { 'c' }
    else if d == 13 { 'd' }
    else if d == 14 { 'e' }
    else { 'f' }
}

/// The canonical decimal digit string of a non-negative value: no sign, no
/// leading zeros (a single zero for 0).
pub open spec fn dec_chars(n: int) -> Seq<char>
    decreases n,
{
    if n < 10 {
        seq![dec_digit_char(n)]
    } else {
        dec_chars(n / 10) + seq![dec_digit_char(n % 10)]
    }
}

/// The canonical lowercase hexadecimal digit string of a non-negative
/// value, without leading zeros.
pub open spec fn hex_chars(n: int) -> Seq<char>
    decreases n,
{
    if n < 16 {
        seq![hex_digit_char(n)]
    } else {
        hex_chars(n / 16) + seq![hex_digit_char(n % 16)]
    }
}

/// `n` written in exactly `width` lowercase hexadecimal digits, most
/// significant first, truncated to the low digits if it does not fit.
pub open spec fn hex_chars_fixed(n: int, width: int) -> Seq<char>
    decreases width,
{
    if width <= 0 {
        seq![]
    } else {
        hex_chars_fixed(n / 16, width - 1) + seq![hex_digit_char(n % 16)]
    }
}

/// The canonical decimal digit string is non-empty and all digits.
pub proof fn lemma_dec_chars_digits(n: int)
    requires
        n >= 0,
    ensures
        all_dec_digits(dec_chars(n)),
        dec_chars(n).len() > 0,
    decreases n,
{
    if n >= 10 {
        lemma_dec_chars_digits(n / 10);
    }
}

/// The canonical decimal digit string of a value reads back as that value.
pub proof fn lemma_dec_chars_value(n: int)
    requires
        n >= 0,
    ensures
        dec_value(dec_chars(n)) == n,
    decreases n,
{
    if n < 10 {
        let x = seq![dec_digit_char(n)];
        assert(dec_value(x.drop_last()) == 0) by {
            assert(x.drop_last() =~= Seq::<char>::empty());
        }
        assert(x.last() == dec_digit_char(n));
        assert(dec_value(x) == dec_digit_val(dec_digit_char(n)));
        assert(dec_digit_val(dec_digit_char(n)) == n);
    } else {
        lemma_dec_chars_value(n / 10);
        let a = dec_chars(n / 10);
        let c = dec_digit_char(n % 10);
        assert((a + seq![c]).drop_last() =~= a);
        assert((a + seq![c]).last() == c);
    }
}

/// The canonical hexadecimal digit string is non-empty, all digits, and
/// reads back as its value.
pub proof fn lemma_hex_chars_value(n: int)
    requires
        n >= 0,
    ensures
        all_hex_digits(hex_chars(n)),
        hex_chars(n).len() > 0,
        hex_value(hex_chars(n)) == n,
    decreases n,
{
    if n < 16 {
        let x = seq![hex_digit_char(n)];
        assert(hex_value(x.drop_last()) == 0) by {
            assert(x.drop_last() =~= Seq::<char>::empty());
        }
        assert(x.last() == hex_digit_char(n));
        assert(hex_digit_val(hex_digit_char(n)) == n);
    } else {
        lemma_hex_chars_value(n / 16);
        let a = hex_chars(n / 16);
        let c = hex_digit_char(n % 16);
        assert((a + seq![c]).drop_last() =~= a);
        assert((a + seq![c]).last() == c);
        assert(hex_digit_val(c) == n % 16);
    }
}

/// Sixteen to the `w`th power: how many values `w` hexadecimal digits
/// can hold.
pub open spec fn pow16(w: int) -> int
    decreases w,
{
    if w <= 0 {
        1
    } else {
        16 * pow16(w - 1)
    }
}

proof fn lemma_pow16_positive(w: int)
    ensures
        pow16(w) >= 1,
    decreases w,
{
    if w > 0 {
        lemma_pow16_positive(w - 1);
    }
}

/// A fixed-width hexadecimal digit string of a value that fits the
/// width is all digits, exactly that wide, and reads back as the value.
pub proof fn lemma_hex_chars_fixed_value(n: int, w: int)
    requires
        w >= 0,
        0 <= n < pow16(w),
    ensures
        all_hex_digits(hex_chars_fixed(n, w)),
        hex_chars_fixed(n, w).len() == w,
        hex_value(hex_chars_fixed(n, w)) == n,
    decreases w,
{
    if w == 0 {
        assert(hex_chars_fixed(n, 0) =~= Seq::<char>::empty());
    } else {
        lemma_pow16_positive(w - 1);
        assert(n / 16 < pow16(w - 1)) by (nonlinear_arith)
            requires
                0 <= n,
                n < 16 * pow16(w - 1),
                pow16(w - 1) >= 1,
        ;
        lemma_hex_chars_fixed_value(n / 16, w - 1);
        let a = hex_chars_fixed(n / 16, w - 1);
        let c = hex_digit_char(n % 16);
        assert((a + seq![c]).drop_last() =~= a);
        assert((a + seq![c]).last() == c);
        assert(hex_digit_val(c) == n % 16);
    }
}

fn dec_digit_str(d: u64) -> (r: &'static str)
    requires
        d < 10,
    ensures
        r@ =~= seq![dec_digit_char(d as int)],
{
    proof {
        reveal_strlit("0");
        reveal_strlit("1");
        reveal_strlit("2");
        reveal_strlit("3");
        reveal_strlit("4");
        reveal_strlit("5");
        reveal_strlit("6");
        reveal_strlit("7");
        reveal_strlit("8");
        reveal_strlit("9");
    }
    if d == 0 { "0" }
    else if d == 1 { "1" }
    else if d == 2 { "2" }
    else if d == 3 { "3" }
    else if d == 4 { "4" }
    else if d == 5 { "5" }
    else if d == 6 { "6" }
    else if d == 7 { "7" }
    else if d == 8 { "8" }
    else { "9" }
}

fn hex_digit_str(d: u64) -> (r: &'static str)
    requires
        d < 16,
    ensures
        r@ =~= seq![hex_digit_char(d as int)],
{
    proof {
        reveal_strlit("a");
        reveal_strlit("b");
        reveal_strlit("c");
        reveal_strlit("d");
        reveal_strlit("e");
        reveal_strlit("f");
    }
    if d < 10 { dec_digit_str(d) }
    else if d == 10 { "a" }
    else if d == 11 { "b" }
    else if d == 12 { "c" }
    else if d == 13 { "d" }
    else if d == 14 { "e" }
    else { "f" }
}

/// Render a value as its canonical decimal digit string.
pub fn render_dec_u64(n: u64) -> (r: String)
    ensures
        r@ == dec_chars(n as int),
    decreases n,
{
    if n < 10 {
        String::from_str(dec_digit_str(n))
    } else {
        let q = render_dec_u64(n / 10);
        q.concat(dec_digit_str(n % 10))
    }
}

/// Render an index as its canonical decimal digit string.
pub fn render_dec_usize(n: usize) -> (r: String)
    ensures
        r@ == dec_chars(n as int),
{
    render_dec_u64(n as u64)
}

/// Render a value in lowercase hexadecimal without leading zeros.
pub fn render_hex_u32(n: u32) -> (r: String)
    ensures
        r@ == hex_chars(n as int),
    decreases n,
{
    if n < 16 {
        String::from_str(hex_digit_str(n as u64))
    } else {
        let q = render_hex_u32(n / 16);
        q.concat(hex_digit_str((n % 16) as u64))
    }
}

/// Render the low `width` hexadecimal digits of a value, zero-padded to
/// exactly `width` characters.
pub fn render_hex_fixed_u32(n: u32, width: usize) -> (r: String)
    ensures
        r@ == hex_chars_fixed(n as int, width as int),
    decreases width,
{
    if width == 0 {
        let r = String::new();
        assert(r@ =~= hex_chars_fixed(n as int, 0));
        r
    } else {
        let q = render_hex_fixed_u32(n / 16, width - 1);
        q.concat(hex_digit_str((n % 16) as u64))
    }
}

} // verus!
