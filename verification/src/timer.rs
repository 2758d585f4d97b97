//! Timed display values: the elapsed-duration text and the capped
//! progress value that the window refreshes once a second.

use vstd::prelude::*;

verus! {

/// Seconds at which the progress indicator saturates.
pub const CAP_SECONDS: u64 = 900;

/// Period of the repeating display timer, in milliseconds.
pub const TIMER_PERIOD_MS: u32 = 1000;

/// The decimal character for one digit value.
pub open spec fn digit_char(d: int) -> char {
    if d == 0 { '0' }
    else if d == 1 { '1' }
    else if d == 2 { '2' }
    else if d == 3 { '3' }
    else if d == 4 { '4' }
    else if d == 5 { '5' }
    else if d == 6 { '6' }
    else if d == 7 { '7' }
    else if d == 8 { '8' }
    else { '9' }
}

/// Decimal digits of `n`, most significant first, no leading zeros
/// (a single `'0'` for zero itself).
pub open spec fn decimal_digits(n: nat) -> Seq<char>
    decreases n,
{
    if n < 10 {
        seq![digit_char(n as int)]
    } else {
        decimal_digits(n / 10) + seq![digit_char((n % 10) as int)]
    }
}

/// `s` zero-padded on the left to width 2; longer values are unchanged.
pub open spec fn padded2(s: Seq<char>) -> Seq<char> {
    if s.len() >= 2 { s } else { seq!['0'] + s }
}

/// The duration line for `s` elapsed seconds:
/// `Running: HH:MM:SS` with `HH = s / 3600`, `MM = (s % 3600) / 60`,
/// `SS = s % 60`, each zero-padded to width 2.
pub open spec fn duration_text(s: nat) -> Seq<char> {
    "Running: "@ + padded2(decimal_digits(s / 3600)) + ":"@ + padded2(
        decimal_digits((s % 3600) / 60),
    ) + ":"@ + padded2(decimal_digits(s % 60))
}

proof fn lemma_decimal_digits_len(n: nat)
    ensures
        decimal_digits(n).len() >= 1,
        n >= 10 ==> decimal_digits(n).len() >= 2,
    decreases n,
{
    if n >= 10 {
        lemma_decimal_digits_len(n / 10);
    }
}

fn digit_str(d: u64) -> (r: &'static str)
    requires
        d < 10,
    ensures
        r@ == seq![digit_char(d as int)],
{
    let r = if d == 0 { "0" }
    else if d == 1 { "1" }
    else if d == 2 { "2" }
    else if d == 3 { "3" }
    else if d == 4 { "4" }
    else if d == 5 { "5" }
    else if d == 6 { "6" }
    else if d == 7 { "7" }
    else if d == 8 { "8" }
    else { "9" };
    proof {
        reveal_strlit("0");
        reveal_strlit("1");
        reveal_strlit("2");
        reveal_strlit("3");
        reveal_strlit("4");
        reveal_strlit("5");
        reveal_strlit("6");
        reveal_strlit("7");
        reveal_strlit("8");
        reveal_strlit("9");
        assert(r@ =~= seq![digit_char(d as int)]);
    }
    r
}

fn push_decimal(n: u64, out: &mut String)
    ensures
        final(out)@ == old(out)@ + decimal_digits(n as nat),
    decreases n,
{
    if n < 10 {
        out.append(digit_str(n));
    } else {
        push_decimal(n / 10, out);
        out.append(digit_str(n % 10));
        proof {
            assert(old(out)@ + decimal_digits((n / 10) as nat) + seq![
                digit_char((n % 10) as int),
            ] =~= old(out)@ + decimal_digits(n as nat));
        }
    }
}

fn push_padded2(n: u64, out: &mut String)
    ensures
        final(out)@ == old(out)@ + padded2(decimal_digits(n as nat)),
{
    if n < 10 {
        out.append("0");
        push_decimal(n, out);
        proof {
            reveal_strlit("0");
            assert(old(out)@ + "0"@ + decimal_digits(n as nat) =~= old(out)@ + padded2(
                decimal_digits(n as nat),
            ));
        }
    } else {
        proof {
            lemma_decimal_digits_len(n as nat);
        }
        push_decimal(n, out);
    }
}

/// Renders `Running: HH:MM:SS` for the given elapsed seconds.
pub fn format_duration(elapsed_secs: u64) -> (r: String)
    ensures
        r@ == duration_text(elapsed_secs as nat),
{
    let mut out = String::from_str("Running: ");
    push_padded2(elapsed_secs / 3600, &mut out);
    out.append(":");
    push_padded2((elapsed_secs % 3600) / 60, &mut out);
    out.append(":");
    push_padded2(elapsed_secs % 60, &mut out);
    proof {
        reveal_strlit(":");
        assert(out@ =~= duration_text(elapsed_secs as nat));
    }
    out
}

/// The progress indicator position for the given elapsed seconds:
/// the seconds themselves, saturating at [`CAP_SECONDS`].
pub fn progress_value(elapsed_secs: u64) -> (p: u64)
    ensures
        p == vstd::math::min(elapsed_secs as int, CAP_SECONDS as int),
{
    if elapsed_secs > CAP_SECONDS {
        CAP_SECONDS
    } else {
        elapsed_secs
    }
}

} // verus!
