use vstd::prelude::*;
use vstd::string::StringExecFns;

verus! {

/// The number of units on the ladder of decimal byte magnitudes.
pub const SCALE_COUNT: usize = 9;

/// The unit suffix at position `k` of the ladder of decimal byte magnitudes.
pub open spec fn unit_name(k: nat) -> Seq<char> {
    if k == 0 {
        "B"@
    } else if k == 1 {
        "kB"@
    } else if k == 2 {
        "MB"@
    } else if k == 3 {
        "GB"@
    } else if k == 4 {
        "TB"@
    } else if k == 5 {
        "PB"@
    } else if k == 6 {
        "EB"@
    } else if k == 7 {
        "ZB"@
    } else {
        "YB"@
    }
}

/// `1000` raised to the power `k`.
pub open spec fn pow1000(k: nat) -> nat
    decreases k,
{
    if k == 0 {
        1
    } else {
        1000 * pow1000((k - 1) as nat)
    }
}

/// How many times `t` is divided by 1000 before it falls under 1000,
/// clamped to the top of the ladder.
pub open spec fn scale_index(t: nat) -> nat
    decreases t,
{
    if t < 1000 {
        0
    } else {
        let s = 1 + scale_index(t / 1000);
        if s < SCALE_COUNT - 1 {
            s
        } else {
            (SCALE_COUNT - 1) as nat
        }
    }
}

/// The decimal digit `d` (for `d < 10`).
pub open spec fn digit_char(d: nat) -> char {
    if d == 0 {
        '0'
    } else if d == 1 {
        '1'
    } else if d == 2 {
        '2'
    } else if d == 3 {
        '3'
    } else if d == 4 {
        '4'
    } else if d == 5 {
        '5'
    } else if d == 6 {
        '6'
    } else if d == 7 {
        '7'
    } else if d == 8 {
        '8'
    } else {
        '9'
    }
}

/// The decimal notation of `n`, without leading zeros.
pub open spec fn decimal_text(n: nat) -> Seq<char>
    decreases n,
{
    if n < 10 {
        seq![digit_char(n)]
    } else {
        decimal_text(n / 10).push(digit_char(n % 10))
    }
}

/// `c` hundredths written with two decimal places.
pub open spec fn hundredths_text(c: nat) -> Seq<char> {
    decimal_text(c / 100) + seq!['.', digit_char((c / 10) % 10), digit_char(c % 10)]
}

/// `n` bytes in units of `1000^k` bytes: without decimals when the quotient is
/// a whole number, else rounded to two decimal places (halves round up).
pub open spec fn amount_text(n: nat, k: nat) -> Seq<char> {
    let d = pow1000(k);
    if n % d == 0 {
        decimal_text(n / d)
    } else {
        hundredths_text((100 * n + d / 2) / d)
    }
}

/// The text of the total: its amount in the unit that the total picks,
/// then a space, then that unit.
pub open spec fn total_text(total: nat) -> Seq<char> {
    amount_text(total, scale_index(total)) + " "@ + unit_name(scale_index(total))
}

/// The text of the current count: its amount in the unit that the total
/// picks, without the unit.
pub open spec fn current_text(current: nat, total: nat) -> Seq<char> {
    amount_text(current, scale_index(total))
}

fn digit_str(d: u128) -> (r: &'static str)
    requires
        d < 10,
    ensures
        r@ == seq![digit_char(d as nat)],
{
    proof {
        reveal_strlit("0");
        reveal_strlit("1");
        reveal_strlit("2");
        reveal_strlit("3");
        reveal_strlit("4");
        reveal_strlit("5");
        reveal_strlit("6");
        reveal_strlit("7");
        reveal_strlit("8");
        reveal_strlit("9");
    }
    let r = if d == 0 {
        "0"
    } else if d == 1 {
        "1"
    } else if d == 2 {
        "2"
    } else if d == 3 {
        "3"
    } else if d == 4 {
        "4"
    } else if d == 5 {
        "5"
    } else if d == 6 {
        "6"
    } else if d == 7 {
        "7"
    } else if d == 8 {
        "8"
    } else {
        "9"
    };
    assert(r@ =~= seq![digit_char(d as nat)]);
    r
}

/// Appends the decimal notation of `n` to `out`.
fn push_decimal(n: u128, out: &mut String)
    ensures
        final(out)@ == old(out)@ + decimal_text(n as nat),
    decreases n,
{
    if n >= 10 {
        push_decimal(n / 10, out);
    }
    out.append(digit_str(n % 10));
    assert(final(out)@ =~= old(out)@ + decimal_text(n as nat));
}

pub(crate) fn unit_str(k: usize) -> (r: &'static str)
    ensures
        r@ == unit_name(k as nat),
{
    if k == 0 {
        "B"
    } else if k == 1 {
        "kB"
    } else if k == 2 {
        "MB"
    } else if k == 3 {
        "GB"
    } else if k == 4 {
        "TB"
    } else if k == 5 {
        "PB"
    } else if k == 6 {
        "EB"
    } else if k == 7 {
        "ZB"
    } else {
        "YB"
    }
}

fn divisor(k: usize) -> (d: u128)
    requires
        k < SCALE_COUNT,
    ensures
        d == pow1000(k as nat),
        1 <= d <= 1_000_000_000_000_000_000_000_000,
{
    let mut d: u128 = 1;
    let mut i: usize = 0;
    while i < k
        invariant
            i <= k < SCALE_COUNT,
            d == pow1000(i as nat),
            1 <= d <= pow1000(i as nat),
        decreases k - i,
    {
        proof {
            reveal_with_fuel(pow1000, 9);
            assert(pow1000(i as nat) <= 1_000_000_000_000_000_000_000) by {
                reveal_with_fuel(pow1000, 9);
                if i == 0 {} else if i == 1 {} else if i == 2 {} else if i == 3 {} else if i == 4 {}
                else if i == 5 {} else if i == 6 {} else {}
            }
        }
        d = d * 1000;
        i = i + 1;
    }
    proof {
        reveal_with_fuel(pow1000, 9);
        if k == 0 {} else if k == 1 {} else if k == 2 {} else if k == 3 {} else if k == 4 {}
        else if k == 5 {} else if k == 6 {} else if k == 7 {} else {}
    }
    d
}

/// The index on the ladder of the unit that `total` is displayed in.
pub(crate) fn scale_of(total: u64) -> (k: usize)
    ensures
        k == scale_index(total as nat),
        k < SCALE_COUNT,
{
    let mut t: u64 = total;
    let mut k: usize = 0;
    while t >= 1000 && k < SCALE_COUNT - 1
        invariant
            k < SCALE_COUNT,
            scale_index(total as nat) == if k + scale_index(t as nat) < SCALE_COUNT - 1 {
                (k + scale_index(t as nat)) as nat
            } else {
                (SCALE_COUNT - 1) as nat
            },
        decreases t,
    {
        t = t / 1000;
        k = k + 1;
    }
    k
}

/// The amount `n` in units of `1000^k` bytes, as `amount_text` writes it.
pub(crate) fn amount_string(n: u64, k: usize) -> (r: String)
    requires
        k < SCALE_COUNT,
    ensures
        r@ == amount_text(n as nat, k as nat),
{
    let d = divisor(k);
    let n = n as u128;
    let mut out = String::new();
    if n % d == 0 {
        push_decimal(n / d, &mut out);
        assert(out@ =~= amount_text(n as nat, k as nat));
    } else {
        assert(100 * n + d / 2 <= 100 * 0xffff_ffff_ffff_ffffu128 + 1_000_000_000_000_000_000_000_000)
            by (nonlinear_arith)
            requires n <= 0xffff_ffff_ffff_ffffu128, d <= 1_000_000_000_000_000_000_000_000;
        let c = (100 * n + d / 2) / d;
        push_decimal(c / 100, &mut out);
        out.append(".");
        out.append(digit_str((c / 10) % 10));
        out.append(digit_str(c % 10));
        proof {
            reveal_strlit(".");
        }
        assert(out@ =~= amount_text(n as nat, k as nat));
    }
    out
}

/// What humansize writes for `n` bytes with its decimal (SI) options.
pub uninterp spec fn decimal_size_text(n: nat) -> Seq<char>;

/// Relies on `humansize::format_size` with `humansize::DECIMAL`: the text
/// depends on the byte count alone.
#[verifier::external_body]
pub(crate) fn format_size_decimal(n: usize) -> (r: String)
    ensures
        r@ == decimal_size_text(n as nat),
{
    humansize::format_size(n, humansize::DECIMAL)
}

} // verus!
