//! Session tokens: a fixed prefix followed by the time of issue.

use vstd::prelude::*;
use vstd::string::*;
use std::time::{Duration, SystemTime, UNIX_EPOCH};
use crate::text::{hex, lemma_digits_injective, lemma_hex_of_eight_digits, to_hex};

verus! {

/// `std::time::SystemTime`, a point on the system's wall clock. Opaque
/// here: only the clock makes one, and only its distance from the epoch is
/// read from it.
#[verifier::external_type_specification]
#[verifier::external_body]
pub struct ExSystemTime(std::time::SystemTime);

/// `SystemTime::now` reads the wall clock. Nothing is claimed of the value.
#[verifier::external_body]
fn wall_clock() -> (now: SystemTime) {
    SystemTime::now()
}

/// `SystemTime::duration_since` against the Unix epoch: the time elapsed
/// since then, or nothing where the clock stands before the epoch. Nothing
/// is claimed of the value.
#[verifier::external_body]
fn since_epoch(now: &SystemTime) -> (elapsed: Option<Duration>) {
    now.duration_since(UNIX_EPOCH).ok()
}

/// `Duration::as_secs` gives the whole seconds of a duration. Nothing is
/// claimed beyond the type.
pub assume_specification[ Duration::as_secs ](elapsed: &Duration) -> (secs: u64)
;

/// `Duration::subsec_nanos` gives the part of a duration below one second
/// in nanoseconds, which is always less than one billion.
pub assume_specification[ Duration::subsec_nanos ](elapsed: &Duration) -> (nanos: u32)
    ensures
        nanos < 1_000_000_000,
;

/// The token issued at `secs` seconds and `nanos` nanoseconds after the
/// epoch: the prefix, then both numbers in hexadecimal, one after the other.
pub open spec fn token_text(secs: nat, nanos: nat) -> Seq<char> {
    "sclw-"@ + hex(secs) + hex(nanos)
}

/// Whether `text` is the token of some clock reading.
pub open spec fn is_session_token(text: Seq<char>) -> bool {
    exists|secs: u64, nanos: u32|
        nanos < 1_000_000_000 && text == #[trigger] token_text(secs as nat, nanos as nat)
}

/// The token for a clock reading.
pub fn token_from_clock(secs: u64, nanos: u32) -> (token: String)
    ensures
        token@ == token_text(secs as nat, nanos as nat),
{
    let mut token = String::from_str("sclw-");
    let whole = to_hex(secs);
    token.append(whole.as_str());
    let fraction = to_hex(nanos as u64);
    token.append(fraction.as_str());
    token
}

/// The reading that a token is issued from, given the time elapsed since
/// the epoch as seconds and nanoseconds: that time, and zero where the clock
/// could not give one.
pub open spec fn reading_or_zero(elapsed: Option<(u64, u32)>) -> (u64, u32) {
    match elapsed {
        Some(reading) => reading,
        None => (0, 0),
    }
}

/// The reading that a token is issued from: the time elapsed since the
/// epoch as it is, and zero on both counts where the clock could not give
/// one, so that a token can always be issued.
pub fn reading_from(elapsed: Option<(u64, u32)>) -> (reading: (u64, u32))
    ensures
        reading == reading_or_zero(elapsed),
{
    match elapsed {
        Some(reading) => reading,
        None => (0, 0),
    }
}

/// Reads the clock as seconds and nanoseconds since the epoch. A clock that
/// stands before the epoch reads as zero.
pub fn clock_reading() -> (reading: (u64, u32))
    ensures
        reading.1 < 1_000_000_000,
{
    let now = wall_clock();
    let elapsed = match since_epoch(&now) {
        Some(elapsed) => Some((elapsed.as_secs(), elapsed.subsec_nanos())),
        None => None,
    };
    reading_from(elapsed)
}

/// Issues the token for a new gateway session from the current time.
/// Never fails.
pub fn generate_token() -> (token: String)
    ensures
        is_session_token(token@),
{
    let (secs, nanos) = clock_reading();
    let token = token_from_clock(secs, nanos);
    assert(token@ == token_text(secs as nat, nanos as nat));
    token
}

/// Two clock readings whose seconds are written with equally many digits
/// give the same token only if they are the same reading.
pub proof fn lemma_tokens_differ(secs_a: nat, nanos_a: nat, secs_b: nat, nanos_b: nat)
    requires
        hex(secs_a).len() == hex(secs_b).len(),
        secs_a != secs_b || nanos_a != nanos_b,
    ensures
        token_text(secs_a, nanos_a) != token_text(secs_b, nanos_b),
{
    let a = token_text(secs_a, nanos_a);
    let b = token_text(secs_b, nanos_b);
    if a == b {
        let from = "sclw-"@.len() as int;
        let mid = from + hex(secs_a).len();
        assert(a.subrange(from, mid) =~= hex(secs_a));
        assert(b.subrange(from, mid) =~= hex(secs_b));
        assert(a.subrange(mid, a.len() as int) =~= hex(nanos_a));
        assert(b.subrange(mid, b.len() as int) =~= hex(nanos_b));
        lemma_digits_injective(secs_a, secs_b, 16);
        lemma_digits_injective(nanos_a, nanos_b, 16);
    }
}

/// From the year 1978 to the year 2106 the seconds since the epoch are
/// written with eight digits, so that in all that time two different clock
/// readings give two different tokens.
pub proof fn lemma_tokens_differ_in_our_time(secs_a: u64, nanos_a: u32, secs_b: u64, nanos_b: u32)
    requires
        0x1000_0000 <= secs_a <= 0xffff_ffff,
        0x1000_0000 <= secs_b <= 0xffff_ffff,
        secs_a != secs_b || nanos_a != nanos_b,
    ensures
        token_text(secs_a as nat, nanos_a as nat) != token_text(secs_b as nat, nanos_b as nat),
{
    lemma_hex_of_eight_digits(secs_a as nat);
    lemma_hex_of_eight_digits(secs_b as nat);
    lemma_tokens_differ(secs_a as nat, nanos_a as nat, secs_b as nat, nanos_b as nat);
}

} // verus!
