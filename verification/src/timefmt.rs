//! Rendering of a sentence's time range.
//!
//! An update labels its sentence with "start - end", each bound in seconds
//! printed to one decimal place. Times move through the engine in
//! milliseconds and are rounded to the nearest tenth of a second here.

use vstd::prelude::*;
use vstd::string::StringExecFns;

verus! {

/// The character of a single decimal digit.
pub open spec fn digit_char(d: nat) -> char {
    if d == 0 {
        '0'
    } else if d == 1 {
        '1'
    } else if d == 2 {
        '2'
    } else if d == 3 {
        '3'
    } else if d == 4 {
        '4'
    } else if d == 5 {
        '5'
    } else if d == 6 {
        '6'
    } else if d == 7 {
        '7'
    } else if d == 8 {
        '8'
    } else {
        '9'
    }
}

/// The decimal digits of `n`, most significant first.
pub open spec fn dec_digits(n: nat) -> Seq<char>
    decreases n,
{
    if n < 10 {
        seq![digit_char(n)]
    } else {
        dec_digits(n / 10) + seq![digit_char(n % 10)]
    }
}

/// `ms` rounded to the nearest tenth of a second.
pub open spec fn tenths_of_ms(ms: u64) -> nat {
    (ms / 100 + if ms % 100 >= 50 {
        1nat
    } else {
        0nat
    }) as nat
}

/// A tenth count rendered as seconds with one decimal place.
pub open spec fn tenths_label(tenths: nat) -> Seq<char> {
    dec_digits(tenths / 10) + seq!['.'] + seq![digit_char(tenths % 10)]
}

/// The "start - end" label of a sentence's time range, both bounds in
/// seconds to one decimal place.
pub open spec fn time_range_label(start_ms: u64, end_ms: u64) -> Seq<char> {
    tenths_label(tenths_of_ms(start_ms)) + seq![' ', '-', ' '] + tenths_label(tenths_of_ms(end_ms))
}

/// Appends one decimal digit.
fn append_digit(out: &mut String, d: u64)
    requires
        d < 10,
    ensures
        final(out)@ == old(out)@ + seq![digit_char(d as nat)],
{
    proof {
        reveal_strlit("0");
        reveal_strlit("1");
        reveal_strlit("2");
        reveal_strlit("3");
        reveal_strlit("4");
        reveal_strlit("5");
        reveal_strlit("6");
        reveal_strlit("7");
        reveal_strlit("8");
        reveal_strlit("9");
    }
    if d == 0 {
        out.append("0");
        assert(out@ =~= old(out)@ + seq![digit_char(d as nat)]);
    } else if d == 1 {
        out.append("1");
        assert(out@ =~= old(out)@ + seq![digit_char(d as nat)]);
    } else if d == 2 {
        out.append("2");
        assert(out@ =~= old(out)@ + seq![digit_char(d as nat)]);
    } else if d == 3 {
        out.append("3");
        assert(out@ =~= old(out)@ + seq![digit_char(d as nat)]);
    } else if d == 4 {
        out.append("4");
        assert(out@ =~= old(out)@ + seq![digit_char(d as nat)]);
    } else if d == 5 {
        out.append("5");
        assert(out@ =~= old(out)@ + seq![digit_char(d as nat)]);
    } else if d == 6 {
        out.append("6");
        assert(out@ =~= old(out)@ + seq![digit_char(d as nat)]);
    } else if d == 7 {
        out.append("7");
        assert(out@ =~= old(out)@ + seq![digit_char(d as nat)]);
    } else if d == 8 {
        out.append("8");
        assert(out@ =~= old(out)@ + seq![digit_char(d as nat)]);
    } else {
        out.append("9");
        assert(out@ =~= old(out)@ + seq![digit_char(d as nat)]);
    }
}

/// Appends the decimal digits of `n`, most significant first.
fn append_dec_digits(out: &mut String, n: u64)
    ensures
        final(out)@ == old(out)@ + dec_digits(n as nat),
    decreases n,
{
    if n >= 10 {
        append_dec_digits(out, n / 10);
        append_digit(out, n % 10);
        proof {
            assert(out@ =~= old(out)@ + dec_digits(n as nat));
        }
    } else {
        append_digit(out, n);
    }
}

/// Appends `ms` rendered as seconds with one decimal place.
fn append_tenths(out: &mut String, ms: u64)
    ensures
        final(out)@ == old(out)@ + tenths_label(tenths_of_ms(ms)),
{
    let tenths: u64 = ms / 100 + if ms % 100 >= 50 {
        1
    } else {
        0
    };
    assert(tenths == tenths_of_ms(ms));
    append_dec_digits(out, tenths / 10);
    proof {
        reveal_strlit(".");
    }
    out.append(".");
    append_digit(out, tenths % 10);
    proof {
        assert(out@ =~= old(out)@ + tenths_label(tenths_of_ms(ms)));
    }
}

/// Renders the "start - end" time range of a sentence, both bounds in
/// seconds to one decimal place.
pub fn format_time_range(start_ms: u64, end_ms: u64) -> (out: String)
    ensures
        out@ == time_range_label(start_ms, end_ms),
{
    let mut out = String::new();
    append_tenths(&mut out, start_ms);
    proof {
        reveal_strlit(" - ");
    }
    out.append(" - ");
    append_tenths(&mut out, end_ms);
    proof {
        assert(out@ =~= time_range_label(start_ms, end_ms));
    }
    out
}

} // verus!
