//! Byte counts as text, in binary units with two decimal places.

use vstd::prelude::*;

verus! {

/// Bytes in one KiB.
pub const KIB: u64 = 1024;

/// Bytes in one MiB.
pub const MIB: u64 = 1024 * 1024;

/// Bytes in one GiB.
pub const GIB: u64 = 1024 * 1024 * 1024;

/// `n / d` rounded to the nearest integer, an exact half going to the even
/// neighbour.
pub open spec fn round_half_even(n: nat, d: nat) -> nat
    recommends
        d > 0,
{
    let q = n / d;
    let r = n % d;
    if 2 * r > d || (2 * r == d && q % 2 == 1) {
        q + 1
    } else {
        q
    }
}

/// The decimal digit `d` as a character.
pub open spec fn digit_char(d: nat) -> char
    recommends
        d < 10,
{
    if d == 0 {
        '0'
    } else if d == 1 {
        '1'
    } else if d == 2 {
        '2'
    } else if d == 3 {
        '3'
    } else if d == 4 {
        '4'
    } else if d == 5 {
        '5'
    } else if d == 6 {
        '6'
    } else if d == 7 {
        '7'
    } else if d == 8 {
        '8'
    } else {
        '9'
    }
}

/// `n` in decimal, without sign or leading zeros (`0` is `"0"`).
pub open spec fn decimal_text(n: nat) -> Seq<char>
    decreases n,
{
    if n < 10 {
        seq![digit_char(n)]
    } else {
        decimal_text(n / 10).push(digit_char(n % 10))
    }
}

/// A count of hundredths as text with exactly two decimals: `1234` is
/// `"12.34"`, `5` is `"0.05"`.
pub open spec fn fixed2_text(hundredths: nat) -> Seq<char> {
    decimal_text(hundredths / 100).push('.').push(digit_char((hundredths / 10) % 10)).push(
        digit_char(hundredths % 10),
    )
}

/// The text of a byte count: below one KiB the plain count and `" bytes"`;
/// from there on the count in the largest of KiB, MiB, GiB that it reaches,
/// rounded half-even to two decimals.
pub open spec fn human_readable_size_text(bytes: nat) -> Seq<char> {
    if bytes >= GIB {
        fixed2_text(round_half_even(bytes * 100, GIB as nat)) + " GiB"@
    } else if bytes >= MIB {
        fixed2_text(round_half_even(bytes * 100, MIB as nat)) + " MiB"@
    } else if bytes >= KIB {
        fixed2_text(round_half_even(bytes * 100, KIB as nat)) + " KiB"@
    } else {
        decimal_text(bytes) + " bytes"@
    }
}

/// `bytes * 100 / unit`, rounded half-even.
fn scaled_hundredths(bytes: u64, unit: u64) -> (h: u64)
    requires
        unit >= 1024,
    ensures
        h == round_half_even(bytes as nat * 100, unit as nat),
{
    let n: u128 = (bytes as u128) * 100;
    let d: u128 = unit as u128;
    let q: u128 = n / d;
    let r: u128 = n % d;
    assert(q * 1024 <= n) by (nonlinear_arith)
        requires
            q == n / d,
            d >= 1024,
            n >= 0,
    ;
    if 2 * r > d || (2 * r == d && q % 2 == 1) {
        (q + 1) as u64
    } else {
        q as u64
    }
}

fn digit_str(d: u64) -> (s: &'static str)
    requires
        d < 10,
    ensures
        s@ == seq![digit_char(d as nat)],
{
    proof {
        reveal_strlit("0");
        reveal_strlit("1");
        reveal_strlit("2");
        reveal_strlit("3");
        reveal_strlit("4");
        reveal_strlit("5");
        reveal_strlit("6");
        reveal_strlit("7");
        reveal_strlit("8");
        reveal_strlit("9");
    }
    let s = if d == 0 {
        "0"
    } else if d == 1 {
        "1"
    } else if d == 2 {
        "2"
    } else if d == 3 {
        "3"
    } else if d == 4 {
        "4"
    } else if d == 5 {
        "5"
    } else if d == 6 {
        "6"
    } else if d == 7 {
        "7"
    } else if d == 8 {
        "8"
    } else {
        "9"
    };
    assert(s@ =~= seq![digit_char(d as nat)]);
    s
}

/// Appends `n` in decimal to `out`.
pub fn push_decimal(out: &mut String, n: u64)
    ensures
        final(out)@ == old(out)@ + decimal_text(n as nat),
    decreases n,
{
    if n >= 10 {
        push_decimal(out, n / 10);
    }
    out.append(digit_str(n % 10));
    assert(out@ =~= old(out)@ + decimal_text(n as nat));
}

/// Appends a count of hundredths with two decimals to `out`.
pub fn push_fixed2(out: &mut String, hundredths: u64)
    ensures
        final(out)@ == old(out)@ + fixed2_text(hundredths as nat),
{
    push_decimal(out, hundredths / 100);
    proof {
        reveal_strlit(".");
    }
    out.append(".");
    out.append(digit_str((hundredths / 10) % 10));
    out.append(digit_str(hundredths % 10));
    assert(out@ =~= old(out)@ + fixed2_text(hundredths as nat));
}

/// A byte count for people: `"512 bytes"`, `"1.50 KiB"`, `"2.00 GiB"`.
pub fn human_readable_size(bytes: u64) -> (text: String)
    ensures
        text@ == human_readable_size_text(bytes as nat),
{
    let mut out = String::new();
    if bytes >= GIB {
        push_fixed2(&mut out, scaled_hundredths(bytes, GIB));
        out.append(" GiB");
    } else if bytes >= MIB {
        push_fixed2(&mut out, scaled_hundredths(bytes, MIB));
        out.append(" MiB");
    } else if bytes >= KIB {
        push_fixed2(&mut out, scaled_hundredths(bytes, KIB));
        out.append(" KiB");
    } else {
        push_decimal(&mut out, bytes);
        out.append(" bytes");
    }
    assert(out@ =~= human_readable_size_text(bytes as nat));
    out
}

} // verus!
