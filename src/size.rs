//! Human-readable rendering of byte counts in binary units.
use vstd::prelude::*;

verus! {

/// One kibibyte.
pub const KIB: u64 = 1024;

/// One mebibyte.
pub const MIB: u64 = 1048576;

/// One gibibyte.
pub const GIB: u64 = 1073741824;

/// One tebibyte.
pub const TIB: u64 = 1099511627776;

/// The character of a decimal digit.
pub open spec fn digit_char(d: nat) -> char {
    if d == 0 {
        '0'
    } else if d == 1 {
        '1'
    } else if d == 2 {
        '2'
    } else if d == 3 {
        '3'
    } else if d == 4 {
        '4'
    } else if d == 5 {
        '5'
    } else if d == 6 {
        '6'
    } else if d == 7 {
        '7'
    } else if d == 8 {
        '8'
    } else {
        '9'
    }
}

/// The decimal notation of `n`, without leading zeros.
pub open spec fn decimal_text(n: nat) -> Seq<char>
    decreases n,
{
    if n < 10 {
        seq![digit_char(n)]
    } else {
        decimal_text(n / 10).push(digit_char(n % 10))
    }
}

/// `b / unit` in hundredths, rounded to the nearest integer, ties to even.
pub open spec fn rounded_hundredths(b: nat, unit: nat) -> nat
    recommends
        unit > 0,
{
    let q = (b * 100) / unit;
    let r = (b * 100) % unit;
    if 2 * r > unit || (2 * r == unit && q % 2 == 1) {
        q + 1
    } else {
        q
    }
}

/// A count of hundredths written with exactly two decimal digits.
pub open spec fn two_decimals_text(h: nat) -> Seq<char> {
    decimal_text(h / 100) + seq!['.', digit_char((h % 100) / 10), digit_char(h % 10)]
}

/// The text for a byte count: whole bytes below one kibibyte, otherwise the
/// largest binary unit up to TB, with two decimals.
pub open spec fn size_text(b: nat) -> Seq<char> {
    if b < KIB {
        decimal_text(b) + " bytes"@
    } else if b < MIB {
        two_decimals_text(rounded_hundredths(b, KIB as nat)) + " KB"@
    } else if b < GIB {
        two_decimals_text(rounded_hundredths(b, MIB as nat)) + " MB"@
    } else if b < TIB {
        two_decimals_text(rounded_hundredths(b, GIB as nat)) + " GB"@
    } else {
        two_decimals_text(rounded_hundredths(b, TIB as nat)) + " TB"@
    }
}

/// Appends the character of the digit `d`.
fn push_digit(s: &mut String, d: u8)
    requires
        d < 10,
    ensures
        final(s)@ == old(s)@.push(digit_char(d as nat)),
{
    proof {
        reveal_strlit("0");
        reveal_strlit("1");
        reveal_strlit("2");
        reveal_strlit("3");
        reveal_strlit("4");
        reveal_strlit("5");
        reveal_strlit("6");
        reveal_strlit("7");
        reveal_strlit("8");
        reveal_strlit("9");
    }
    let ghost before = s@;
    if d == 0 {
        s.append("0");
    } else if d == 1 {
        s.append("1");
    } else if d == 2 {
        s.append("2");
    } else if d == 3 {
        s.append("3");
    } else if d == 4 {
        s.append("4");
    } else if d == 5 {
        s.append("5");
    } else if d == 6 {
        s.append("6");
    } else if d == 7 {
        s.append("7");
    } else if d == 8 {
        s.append("8");
    } else {
        s.append("9");
    }
    assert(s@ =~= before.push(digit_char(d as nat)));
}

/// Appends the decimal notation of `n`.
fn push_decimal(s: &mut String, n: u128)
    ensures
        final(s)@ == old(s)@ + decimal_text(n as nat),
    decreases n,
{
    let ghost before = s@;
    if n < 10 {
        push_digit(s, n as u8);
        assert(s@ =~= before + decimal_text(n as nat));
    } else {
        push_decimal(s, n / 10);
        push_digit(s, (n % 10) as u8);
        assert(s@ =~= before + decimal_text(n as nat));
    }
}

/// `b / unit` in hundredths, rounded to nearest with ties to even.
fn round_hundredths(b: u64, unit: u64) -> (h: u128)
    requires
        unit > 0,
    ensures
        h == rounded_hundredths(b as nat, unit as nat),
{
    let scaled: u128 = b as u128 * 100;
    let q: u128 = scaled / unit as u128;
    let r: u128 = scaled % unit as u128;
    assert(q <= scaled) by (nonlinear_arith)
        requires
            q == scaled / unit as u128,
            unit > 0,
    ;
    if 2 * r > unit as u128 || (2 * r == unit as u128 && q % 2 == 1) {
        q + 1
    } else {
        q
    }
}

/// Appends `h` hundredths with exactly two decimal digits.
fn push_two_decimals(s: &mut String, h: u128)
    ensures
        final(s)@ == old(s)@ + two_decimals_text(h as nat),
{
    proof {
        reveal_strlit(".");
    }
    let ghost before = s@;
    push_decimal(s, h / 100);
    s.append(".");
    push_digit(s, ((h % 100) / 10) as u8);
    push_digit(s, (h % 10) as u8);
    assert(s@ =~= before + two_decimals_text(h as nat));
}

/// Renders a byte count in the largest binary unit, up to TB, in which it
/// is below 1024: whole bytes as an integer, larger units with two decimals
/// rounded to nearest (ties to even).
pub fn format_size(bytes: usize) -> (r: String)
    ensures
        r@ == size_text(bytes as nat),
{
    let b = bytes as u64;
    let mut s = String::new();
    if b < KIB {
        push_decimal(&mut s, b as u128);
        s.append(" bytes");
    } else if b < MIB {
        push_two_decimals(&mut s, round_hundredths(b, KIB));
        s.append(" KB");
    } else if b < GIB {
        push_two_decimals(&mut s, round_hundredths(b, MIB));
        s.append(" MB");
    } else if b < TIB {
        push_two_decimals(&mut s, round_hundredths(b, GIB));
        s.append(" GB");
    } else {
        push_two_decimals(&mut s, round_hundredths(b, TIB));
        s.append(" TB");
    }
    s
}

/// The report of the `size` command for the given clipboard text: its
/// length in UTF-8 bytes, rendered by `format_size`.
pub fn size_report(text: &str) -> (r: String)
    ensures
        r@ == size_text(text.len() as nat),
{
    format_size(text.len())
}

/// A byte count below one kibibyte is written as the count followed by
/// " bytes".
pub proof fn lemma_whole_bytes(b: nat)
    requires
        b < 1024,
    ensures
        size_text(b) == decimal_text(b) + " bytes"@,
{
}

/// A byte count from one kibibyte up to one mebibyte is written as the
/// count divided by 1024, with exactly two decimals, followed by " KB".
pub proof fn lemma_kilobytes(b: nat)
    requires
        1024 <= b < 1024 * 1024,
    ensures
        size_text(b) == two_decimals_text(rounded_hundredths(b, 1024)) + " KB"@,
{
}

/// The same holds at each larger unit: MB from 1024^2, GB from 1024^3 and
/// TB from 1024^4, without an upper bound for TB.
pub proof fn lemma_larger_units(b: nat)
    ensures
        1024 * 1024 <= b < 1024 * 1024 * 1024 ==> size_text(b) == two_decimals_text(
            rounded_hundredths(b, 1024 * 1024),
        ) + " MB"@,
        1024 * 1024 * 1024 <= b < 1024 * 1024 * 1024 * 1024 ==> size_text(b)
            == two_decimals_text(rounded_hundredths(b, 1024 * 1024 * 1024)) + " GB"@,
        1024 * 1024 * 1024 * 1024 <= b ==> size_text(b) == two_decimals_text(
            rounded_hundredths(b, 1024 * 1024 * 1024 * 1024),
        ) + " TB"@,
{
}

/// The shown hundredths are the nearest to the exact quotient: they differ
/// from `100 * b / unit` by at most one half.
pub proof fn lemma_rounding_is_nearest(b: nat, unit: nat)
    requires
        unit > 0,
    ensures
        2 * (rounded_hundredths(b, unit) * unit - b * 100) <= unit,
        2 * (b * 100 - rounded_hundredths(b, unit) * unit) <= unit,
{
    let x = b * 100;
    let q = x / unit;
    let r = x % unit;
    assert(x == q * unit + r && 0 <= r < unit) by (nonlinear_arith)
        requires
            unit > 0,
            q == x / unit,
            r == x % unit,
    ;
    assert((q + 1) * unit == q * unit + unit) by (nonlinear_arith);
}

} // verus!
