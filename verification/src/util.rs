//! Small free-standing helpers: parity, guess comparison, and the wall clock.

use vstd::prelude::*;

verus! {

/// True exactly when `n` is even.
pub fn is_even(n: i32) -> (r: bool)
    ensures
        r <==> n % 2 == 0,
{
    n % 2 == 0
}

/// Compares a guess against a secret: `0` on a hit, `1` when the guess is too
/// high, `-1` when it is too low.
pub fn check_guess(guess: i32, secret: i32) -> (r: i32)
    ensures
        guess == secret ==> r == 0,
        guess > secret ==> r == 1,
        guess < secret ==> r == -1,
{
    if guess == secret {
        0
    } else if guess > secret {
        1
    } else {
        -1
    }
}

/// Seconds since the Unix epoch, or `0` should the clock read before it.
///
/// Relies on `std::time::SystemTime::now` for the wall-clock reading; the
/// value depends on the machine's clock, so nothing is promised of it.
#[verifier::external_body]
pub fn now_epoch_secs() -> u64 {
    match std::time::SystemTime::now().duration_since(std::time::UNIX_EPOCH) {
        Ok(d) => d.as_secs(),
        Err(_) => 0,
    }
}

} // verus!
