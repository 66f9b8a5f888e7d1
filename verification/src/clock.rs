//! Elapsed time since the formatter was constructed, rendered as
//! `H:MM:SS.mmm`: hours unpadded, minutes and seconds zero-padded to two
//! digits, milliseconds truncated (not rounded) and zero-padded to three.

use vstd::prelude::*;
use crate::digits::append_dec;
use crate::digits::append_three_digits;
use crate::digits::append_two_digits;
use crate::digits::dec_rep;
use crate::digits::dec_val;
use crate::digits::is_digit_char;
use crate::digits::lemma_dec_rep_digits;
use crate::digits::lemma_dec_rep_val;
use crate::digits::lemma_three_digit_val;
use crate::digits::lemma_two_digit_val;
use crate::digits::three_digit_rep;
use crate::digits::two_digit_rep;

verus! {

use vstd::arithmetic::div_mod::lemma_div_denominator;
use vstd::arithmetic::div_mod::lemma_fundamental_div_mod;

#[verifier::external_type_specification]
#[verifier::external_body]
pub struct ExSystemTime(std::time::SystemTime);

#[verifier::external_type_specification]
#[verifier::external_body]
pub struct ExSystemTimeError(std::time::SystemTimeError);

/// Relies on std::time::SystemTime::now: reads the wall clock; nothing is
/// promised of the value.
#[verifier::external_body]
pub(crate) fn now_time() -> std::time::SystemTime {
    std::time::SystemTime::now()
}

/// Relies on std::time::SystemTime::duration_since: the span from
/// `earlier` to `later`, or an error carrying the backwards span when the
/// clock went backwards.
#[verifier::external_body]
fn time_diff(
    later: &std::time::SystemTime,
    earlier: &std::time::SystemTime,
) -> Result<std::time::Duration, std::time::SystemTimeError> {
    later.duration_since(*earlier)
}

/// Relies on std::time::SystemTimeError::duration: the magnitude of the
/// backwards span that caused the error.
#[verifier::external_body]
fn err_magnitude(e: &std::time::SystemTimeError) -> std::time::Duration {
    e.duration()
}

/// Relies on std::time::Duration::as_secs: the whole-second part.
#[verifier::external_body]
fn duration_secs(d: &std::time::Duration) -> u64 {
    d.as_secs()
}

/// Relies on std::time::Duration::subsec_nanos: the sub-second part, which
/// its documentation bounds below one billion.
#[verifier::external_body]
fn duration_subsec_nanos(d: &std::time::Duration) -> (r: u32)
    ensures
        r < 1_000_000_000,
{
    d.subsec_nanos()
}

/// The seconds and sub-second nanoseconds of the wall-clock span between
/// `start` and now. A non-monotonic clock is clamped: when now reads
/// before `start`, the magnitude of the negative span is returned instead
/// of an error.
pub fn elapsed_parts(start: &std::time::SystemTime) -> (r: (u64, u32))
    ensures
        r.1 < 1_000_000_000,
{
    let now = now_time();
    let d = match time_diff(&now, start) {
        Ok(d) => d,
        Err(e) => err_magnitude(&e),
    };
    (duration_secs(&d), duration_subsec_nanos(&d))
}

/// The rendered `H:MM:SS.mmm` form of a duration of `secs` whole seconds
/// and `millis` milliseconds.
pub open spec fn time_rep(secs: nat, millis: nat) -> Seq<char> {
    dec_rep(secs / 3600) + seq![':'] + two_digit_rep(secs / 60 % 60) + seq![':'] + two_digit_rep(
        secs % 60,
    ) + seq!['.'] + three_digit_rep(millis)
}

/// Renders `secs` seconds and `millis` milliseconds as `H:MM:SS.mmm`.
pub fn render_time(secs: u64, millis: u32) -> (r: String)
    requires
        millis < 1000,
    ensures
        r@ == time_rep(secs as nat, millis as nat),
{
    let mut s = String::new();
    append_dec(&mut s, secs / 3600);
    append_sep(&mut s, false);
    append_two_digits(&mut s, secs / 60 % 60);
    append_sep(&mut s, false);
    append_two_digits(&mut s, secs % 60);
    append_sep(&mut s, true);
    append_three_digits(&mut s, millis as u64);
    proof {
        assert(s@ =~= time_rep(secs as nat, millis as nat));
    }
    s
}

/// Appends the `:` field separator, or `.` when `dot` is set.
fn append_sep(s: &mut String, dot: bool)
    ensures
        final(s)@ == old(s)@ + seq![if dot { '.' } else { ':' }],
{
    if dot {
        s.append(".");
        proof {
            reveal_strlit(".");
            assert(final(s)@ =~= old(s)@ + seq!['.']);
        }
    } else {
        s.append(":");
        proof {
            reveal_strlit(":");
            assert(final(s)@ =~= old(s)@ + seq![':']);
        }
    }
}

/// The hour, minute, second and millisecond fields of a rendered
/// duration reconstruct that duration exactly, to millisecond precision.
pub proof fn lemma_time_fields_round_trip(secs: nat, millis: nat)
    ensures
        (secs / 3600) * 3600 + (secs / 60 % 60) * 60 + secs % 60 == secs,
        ((secs / 3600) * 3600 + (secs / 60 % 60) * 60 + secs % 60) * 1000 + millis == secs * 1000
            + millis,
        secs / 60 % 60 < 60,
        secs % 60 < 60,
{
    let s = secs as int;
    lemma_fundamental_div_mod(s, 60);
    lemma_fundamental_div_mod(s / 60, 60);
    lemma_div_denominator(s, 60, 60);
    assert(60 * (60 * (s / 60 / 60)) == 3600 * (s / 60 / 60)) by (nonlinear_arith);
}

/// Parsing the rendered string round-trips: in `time_rep(secs, millis)`
/// the hour field is everything before the first `:` and holds only
/// digits, the remaining fields sit at fixed offsets from the end, and
/// reading the four fields back yields exactly `secs * 1000 + millis`
/// milliseconds.
pub proof fn lemma_render_round_trip(secs: nat, millis: nat)
    requires
        millis < 1000,
    ensures
        time_rep(secs, millis).len() >= 11,
        ({
            let t = time_rep(secs, millis);
            let hl = t.len() - 10;
            &&& forall|i: int| 0 <= i < hl ==> is_digit_char(#[trigger] t[i])
            &&& t[hl] == ':'
            &&& t[hl + 3] == ':'
            &&& t[hl + 6] == '.'
            &&& dec_val(t.subrange(0, hl)) == secs / 3600
            &&& dec_val(t.subrange(hl + 1, hl + 3)) == secs / 60 % 60
            &&& dec_val(t.subrange(hl + 4, hl + 6)) == secs % 60
            &&& dec_val(t.subrange(hl + 7, hl + 10)) == millis
            &&& dec_val(t.subrange(0, hl)) * 3600000 + dec_val(t.subrange(hl + 1, hl + 3))
                * 60000 + dec_val(t.subrange(hl + 4, hl + 6)) * 1000 + dec_val(
                t.subrange(hl + 7, hl + 10),
            ) == secs * 1000 + millis
        }),
{
    let t = time_rep(secs, millis);
    let h = dec_rep(secs / 3600);
    let mm = two_digit_rep(secs / 60 % 60);
    let ss = two_digit_rep(secs % 60);
    let mmm = three_digit_rep(millis);
    lemma_dec_rep_digits(secs / 3600);
    lemma_dec_rep_val(secs / 3600);
    lemma_time_fields_round_trip(secs, millis);
    lemma_two_digit_val(secs / 60 % 60);
    lemma_two_digit_val(secs % 60);
    lemma_three_digit_val(millis);
    let hl = t.len() - 10;
    assert(hl == h.len());
    assert(t.subrange(0, hl) =~= h);
    assert(t.subrange(hl + 1, hl + 3) =~= mm);
    assert(t.subrange(hl + 4, hl + 6) =~= ss);
    assert(t.subrange(hl + 7, hl + 10) =~= mmm);
    assert((secs / 3600) * 3600000 + (secs / 60 % 60) * 60000 + (secs % 60) * 1000 + millis == secs
        * 1000 + millis) by {
        lemma_time_fields_round_trip(secs, millis);
        assert(((secs / 3600) * 3600 + (secs / 60 % 60) * 60 + secs % 60) * 1000 == (secs / 3600)
            * 3600000 + (secs / 60 % 60) * 60000 + (secs % 60) * 1000) by (nonlinear_arith);
    }
}

} // verus!
