//! Human-readable byte counts and reduction percentages, in fixed-point
//! decimal arithmetic.
use vstd::prelude::*;
use vstd::string::*;

verus! {

/// Smallest byte count shown in megabytes (1024 KB).
pub const MB_START: u64 = 1048576;

/// Smallest byte count shown in gigabytes (1024 MB).
pub const GB_START: u64 = 1073741824;

/// The character of one decimal digit.
pub open spec fn digit_char(d: nat) -> char {
    if d == 0 {
        '0'
    } else if d == 1 {
        '1'
    } else if d == 2 {
        '2'
    } else if d == 3 {
        '3'
    } else if d == 4 {
        '4'
    } else if d == 5 {
        '5'
    } else if d == 6 {
        '6'
    } else if d == 7 {
        '7'
    } else if d == 8 {
        '8'
    } else {
        '9'
    }
}

/// The decimal digits of `n`, most significant first, without leading zeros.
pub open spec fn decimal(n: nat) -> Seq<char>
    decreases n,
{
    if n < 10 {
        seq![digit_char(n)]
    } else {
        decimal(n / 10) + seq![digit_char(n % 10)]
    }
}

/// `h` hundredths written with two decimals ("12.34").
pub open spec fn fixed_two(h: nat) -> Seq<char> {
    decimal(h / 100) + seq!['.', digit_char((h / 10) % 10), digit_char(h % 10)]
}

/// `t` tenths written with one decimal ("50.0").
pub open spec fn fixed_one(t: nat) -> Seq<char> {
    decimal(t / 10) + seq!['.', digit_char(t % 10)]
}

/// The number of bytes in the unit that a byte count is shown in: the
/// largest of KB, MB and GB in which the value is at least 1 (KB for
/// anything under 1 MB).
pub open spec fn unit_bytes(size: nat) -> nat {
    if size < MB_START {
        1024
    } else if size < GB_START {
        1048576
    } else {
        1073741824
    }
}

/// The name of that unit.
pub open spec fn unit_name(size: nat) -> Seq<char> {
    if size < MB_START {
        seq!['K', 'B']
    } else if size < GB_START {
        seq!['M', 'B']
    } else {
        seq!['G', 'B']
    }
}

/// `n / d` rounded to the nearest integer, halves rounded up.
pub open spec fn div_round(n: nat, d: nat) -> nat
    recommends
        d > 0,
{
    (2 * n + d) / (2 * d)
}

/// The displayed value of a byte count in hundredths of its unit.
pub open spec fn size_hundredths(size: nat) -> nat {
    div_round(100 * size, unit_bytes(size))
}

/// A byte count as text: value with two decimals, a space, the unit.
pub open spec fn size_text(size: nat) -> Seq<char> {
    fixed_two(size_hundredths(size)) + seq![' '] + unit_name(size)
}

/// A size column: empty for 0, which stands for "not known yet".
pub open spec fn size_field(size: nat) -> Seq<char> {
    if size == 0 {
        Seq::empty()
    } else {
        size_text(size)
    }
}

/// Whether the optimised size is a real reduction of the original one.
pub open spec fn has_reduction(original: nat, optimized: nat) -> bool {
    original > 0 && optimized < original
}

/// The reduction `1 - optimized / original` in tenths of a percent, rounded.
pub open spec fn reduction_tenths(original: nat, optimized: nat) -> nat
    recommends
        has_reduction(original, optimized),
{
    div_round(1000 * (original - optimized) as nat, original)
}

/// The percentage column: the reduction with one decimal and a percent
/// sign, or empty where there is no positive reduction.
pub open spec fn percent_text(original: nat, optimized: nat) -> Seq<char> {
    if has_reduction(original, optimized) {
        fixed_one(reduction_tenths(original, optimized)) + seq!['%']
    } else {
        Seq::empty()
    }
}

/// The shown value never exceeds 1024.00 of its unit, for every byte count
/// up to 1024 GB (beyond that the count is still shown in GB).
pub proof fn law_size_value_at_most_1024(size: nat)
    requires
        size <= 1099511627776,
    ensures
        size_hundredths(size) <= 102400,
{
    let d = unit_bytes(size);
    assert(size <= 1024 * d);
    assert((200 * size + d) / (2 * d) <= 102400) by (nonlinear_arith)
        requires
            size <= 1024 * d,
            d > 0,
    {
        assert(200 * size + d < 102401 * (2 * d));
    }
}

/// Within one unit, a larger byte count never shows a smaller value.
pub proof fn law_size_value_monotonic(a: nat, b: nat)
    requires
        a <= b,
        unit_bytes(a) == unit_bytes(b),
    ensures
        size_hundredths(a) <= size_hundredths(b),
{
    let d = unit_bytes(a);
    vstd::arithmetic::div_mod::lemma_div_is_ordered(
        (200 * a + d) as int,
        (200 * b + d) as int,
        (2 * d) as int,
    );
}

fn digit_str(d: u128) -> (r: &'static str)
    requires
        d < 10,
    ensures
        r@ == seq![digit_char(d as nat)],
{
    proof {
        reveal_strlit("0");
        reveal_strlit("1");
        reveal_strlit("2");
        reveal_strlit("3");
        reveal_strlit("4");
        reveal_strlit("5");
        reveal_strlit("6");
        reveal_strlit("7");
        reveal_strlit("8");
        reveal_strlit("9");
    }
    if d == 0 {
        "0"
    } else if d == 1 {
        "1"
    } else if d == 2 {
        "2"
    } else if d == 3 {
        "3"
    } else if d == 4 {
        "4"
    } else if d == 5 {
        "5"
    } else if d == 6 {
        "6"
    } else if d == 7 {
        "7"
    } else if d == 8 {
        "8"
    } else {
        "9"
    }
}

/// Appends the decimal digits of `n` to `s`.
pub fn push_decimal(s: &mut String, n: u128)
    ensures
        final(s)@ == old(s)@ + decimal(n as nat),
    decreases n,
{
    if n >= 10 {
        push_decimal(s, n / 10);
    }
    let d = digit_str(n % 10);
    s.append(d);
    proof {
        if n >= 10 {
            assert(old(s)@ + decimal(n as nat) =~= old(s)@ + decimal((n / 10) as nat) + seq![
                digit_char((n % 10) as nat),
            ]);
        } else {
            assert(n % 10 == n);
        }
    }
}

/// Appends `h` hundredths with two decimals.
fn push_fixed_two(s: &mut String, h: u128)
    ensures
        final(s)@ == old(s)@ + fixed_two(h as nat),
{
    push_decimal(s, h / 100);
    proof {
        reveal_strlit(".");
    }
    s.append(".");
    s.append(digit_str((h / 10) % 10));
    s.append(digit_str(h % 10));
    assert(final(s)@ =~= old(s)@ + fixed_two(h as nat));
}

/// Appends `t` tenths with one decimal.
fn push_fixed_one(s: &mut String, t: u128)
    ensures
        final(s)@ == old(s)@ + fixed_one(t as nat),
{
    push_decimal(s, t / 10);
    proof {
        reveal_strlit(".");
    }
    s.append(".");
    s.append(digit_str(t % 10));
    assert(final(s)@ =~= old(s)@ + fixed_one(t as nat));
}

/// Formats a byte count in the largest of KB, MB and GB in which its value
/// is at least 1, with two decimals ("1.00 KB" for 1023 bytes, "1.00 MB"
/// for 1024 * 1024). A count of 0 stands for "not known yet" and gives the
/// empty string.
pub fn format_file_size(size: u64) -> (r: String)
    ensures
        r@ == size_field(size as nat),
{
    if size == 0 {
        return String::new();
    }
    let unit: u128;
    let name: &str;
    proof {
        reveal_strlit("KB");
        reveal_strlit("MB");
        reveal_strlit("GB");
        reveal_strlit(" ");
    }
    if size < MB_START {
        unit = 1024;
        name = "KB";
    } else if size < GB_START {
        unit = 1048576;
        name = "MB";
    } else {
        unit = 1073741824;
        name = "GB";
    }
    let h: u128 = (200 * (size as u128) + unit) / (2 * unit);
    assert(h == size_hundredths(size as nat)) by (nonlinear_arith)
        requires
            h == (200 * (size as u128) + unit) / (2 * unit),
            unit == unit_bytes(size as nat),
    ;
    let mut s = String::new();
    push_fixed_two(&mut s, h);
    s.append(" ");
    s.append(name);
    assert(s@ =~= size_text(size as nat));
    s
}

/// The reduction from `original` to `optimized` bytes as a percentage with
/// one decimal ("50.0%"), or empty when there is no positive reduction,
/// including when the original size is 0.
pub fn compute_percent(original: u64, optimized: u64) -> (r: String)
    ensures
        r@ == percent_text(original as nat, optimized as nat),
{
    let mut s = String::new();
    if original > 0 && optimized < original {
        let diff: u128 = (original - optimized) as u128;
        let o: u128 = original as u128;
        let t: u128 = (2000 * diff + o) / (2 * o);
        assert(t == reduction_tenths(original as nat, optimized as nat)) by (nonlinear_arith)
            requires
                t == (2000 * diff + o) / (2 * o),
                diff == original - optimized,
                o == original,
        ;
        push_fixed_one(&mut s, t);
        proof {
            reveal_strlit("%");
        }
        s.append("%");
        assert(s@ =~= percent_text(original as nat, optimized as nat));
    }
    s
}

} // verus!
