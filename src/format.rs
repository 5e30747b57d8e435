//! Human-readable text for byte counts, transfer rates and durations.

use vstd::prelude::*;
use vstd::string::*;

verus! {

/// The character of a decimal digit `d < 10`.
pub open spec fn digit_char(d: nat) -> char {
    if d == 0 {
        '0'
    } else if d == 1 {
        '1'
    } else if d == 2 {
        '2'
    } else if d == 3 {
        '3'
    } else if d == 4 {
        '4'
    } else if d == 5 {
        '5'
    } else if d == 6 {
        '6'
    } else if d == 7 {
        '7'
    } else if d == 8 {
        '8'
    } else {
        '9'
    }
}

/// The decimal notation of `n`, without leading zeros.
pub open spec fn decimal(n: nat) -> Seq<char>
    decreases n,
{
    if n < 10 {
        seq![digit_char(n)]
    } else {
        decimal(n / 10) + seq![digit_char(n % 10)]
    }
}

fn digit_str(d: u64) -> (r: &'static str)
    requires
        d < 10,
    ensures
        r@ == seq![digit_char(d as nat)],
{
    proof {
        reveal_strlit("0");
        reveal_strlit("1");
        reveal_strlit("2");
        reveal_strlit("3");
        reveal_strlit("4");
        reveal_strlit("5");
        reveal_strlit("6");
        reveal_strlit("7");
        reveal_strlit("8");
        reveal_strlit("9");
    }
    let r = if d == 0 {
        "0"
    } else if d == 1 {
        "1"
    } else if d == 2 {
        "2"
    } else if d == 3 {
        "3"
    } else if d == 4 {
        "4"
    } else if d == 5 {
        "5"
    } else if d == 6 {
        "6"
    } else if d == 7 {
        "7"
    } else if d == 8 {
        "8"
    } else {
        "9"
    };
    assert(r@ =~= seq![digit_char(d as nat)]);
    r
}

/// Appends the decimal notation of `n` to `out`.
fn push_decimal(out: &mut String, n: u64)
    ensures
        final(out)@ == old(out)@ + decimal(n as nat),
    decreases n,
{
    if n >= 10 {
        push_decimal(out, n / 10);
    }
    out.append(digit_str(n % 10));
    proof {
        if n >= 10 {
            assert(final(out)@ =~= old(out)@ + decimal(n as nat));
        } else {
            assert(final(out)@ =~= old(out)@ + decimal(n as nat));
        }
    }
}

/// The text for a duration of `seconds`: hours, minutes and seconds, with
/// the leading zero units left out, and a phrase of its own for zero.
pub open spec fn time_remaining_text(seconds: nat) -> Seq<char> {
    let h = seconds / 3600;
    let m = (seconds % 3600) / 60;
    let s = seconds % 60;
    if seconds == 0 {
        "Less than 1s"@
    } else if h > 0 {
        decimal(h) + "h "@ + decimal(m) + "m "@ + decimal(s) + "s"@
    } else if m > 0 {
        decimal(m) + "m "@ + decimal(s) + "s"@
    } else {
        decimal(s) + "s"@
    }
}

/// Formats a remaining time as `"Xh Ym Zs"`, `"Ym Zs"` or `"Zs"`, and zero
/// as `"Less than 1s"`.
pub fn format_time_remaining(seconds: u64) -> (r: String)
    ensures
        r@ == time_remaining_text(seconds as nat),
{
    if seconds == 0 {
        return String::from_str("Less than 1s");
    }
    let hours = seconds / 3600;
    let minutes = (seconds % 3600) / 60;
    let secs = seconds % 60;
    let mut out = String::new();
    if hours > 0 {
        push_decimal(&mut out, hours);
        out.append("h ");
        push_decimal(&mut out, minutes);
        out.append("m ");
    } else if minutes > 0 {
        push_decimal(&mut out, minutes);
        out.append("m ");
    }
    push_decimal(&mut out, secs);
    out.append("s");
    assert(out@ =~= time_remaining_text(seconds as nat));
    out
}


/// The number of bytes in unit `k`: 1 for bytes, then powers of 1024 up to
/// the terabyte.
pub open spec fn unit_size(k: nat) -> nat {
    if k == 0 {
        1
    } else if k == 1 {
        1024
    } else if k == 2 {
        1048576
    } else if k == 3 {
        1073741824
    } else {
        1099511627776
    }
}

/// The symbol of unit `k`.
pub open spec fn unit_symbol(k: nat) -> Seq<char> {
    if k == 0 {
        "B"@
    } else if k == 1 {
        "KB"@
    } else if k == 2 {
        "MB"@
    } else if k == 3 {
        "GB"@
    } else {
        "TB"@
    }
}

/// The largest unit, up to the terabyte, of which `bytes` holds at least one.
pub open spec fn unit_of(bytes: nat) -> nat {
    if bytes >= unit_size(4) {
        4
    } else if bytes >= unit_size(3) {
        3
    } else if bytes >= unit_size(2) {
        2
    } else if bytes >= unit_size(1) {
        1
    } else {
        0
    }
}

/// `bytes / unit_size(k)` in hundredths, rounded to the nearest hundredth,
/// with an exact tie going to the even neighbour.
pub open spec fn hundredths(bytes: nat, k: nat) -> nat {
    let p = unit_size(k);
    let q = (bytes * 100) / p;
    let r = (bytes * 100) % p;
    if 2 * r > p || (2 * r == p && q % 2 == 1) {
        q + 1
    } else {
        q
    }
}

/// A number below 100 as exactly two decimal digits.
pub open spec fn two_digits(n: nat) -> Seq<char> {
    seq![digit_char(n / 10), digit_char(n % 10)]
}

/// The text for a byte count: whole bytes below 1024, otherwise the value
/// in the largest unit that fits (binary, up to TB) with two decimals.
pub open spec fn bytes_text(bytes: nat) -> Seq<char> {
    let k = unit_of(bytes);
    let h = hundredths(bytes, k);
    if k == 0 {
        decimal(bytes) + " "@ + unit_symbol(0)
    } else {
        decimal(h / 100) + "."@ + two_digits(h % 100) + " "@ + unit_symbol(k)
    }
}

fn unit_symbol_str(k: u64) -> (r: &'static str)
    requires
        k <= 4,
    ensures
        r@ == unit_symbol(k as nat),
{
    if k == 0 {
        "B"
    } else if k == 1 {
        "KB"
    } else if k == 2 {
        "MB"
    } else if k == 3 {
        "GB"
    } else {
        "TB"
    }
}

/// Formats a byte count with binary units: `"512 B"`, `"1.50 KB"`,
/// `"1.00 GB"`.
pub fn format_bytes(bytes: u64) -> (r: String)
    ensures
        r@ == bytes_text(bytes as nat),
{
    let k: u64 = if bytes >= 1099511627776 {
        4
    } else if bytes >= 1073741824 {
        3
    } else if bytes >= 1048576 {
        2
    } else if bytes >= 1024 {
        1
    } else {
        0
    };
    let mut out = String::new();
    if k == 0 {
        push_decimal(&mut out, bytes);
    } else {
        let p: u128 = if k == 1 {
            1024
        } else if k == 2 {
            1048576
        } else if k == 3 {
            1073741824
        } else {
            1099511627776
        };
        assert(p == unit_size(k as nat));
        let num: u128 = bytes as u128 * 100;
        let q: u128 = num / p;
        let r: u128 = num % p;
        let h: u128 = if 2 * r > p || (2 * r == p && q % 2 == 1) {
            q + 1
        } else {
            q
        };
        assert(h == hundredths(bytes as nat, k as nat));
        assert(q <= num / 1024) by (nonlinear_arith)
            requires
                q == num / p,
                p >= 1024,
        ;
        let whole: u64 = (h / 100) as u64;
        let frac: u64 = (h % 100) as u64;
        push_decimal(&mut out, whole);
        out.append(".");
        out.append(digit_str(frac / 10));
        out.append(digit_str(frac % 10));
    }
    out.append(" ");
    out.append(unit_symbol_str(k));
    assert(out@ =~= bytes_text(bytes as nat));
    out
}

/// The text for a rate of `bytes_per_sec` bytes per second.
pub open spec fn rate_text(bytes_per_sec: nat) -> Seq<char> {
    bytes_text(bytes_per_sec) + "/s"@
}

/// Formats a transfer rate as the byte count followed by `"/s"`.
pub fn format_rate(bytes_per_sec: u64) -> (r: String)
    ensures
        r@ == rate_text(bytes_per_sec as nat),
{
    let mut out = format_bytes(bytes_per_sec);
    out.append("/s");
    out
}

} // verus!
