//! Errors waiting to be shown to the operator.
use vstd::prelude::*;
use crate::text::views;

verus! {

#[verifier::external_type_specification]
#[verifier::external_body]
pub struct ExInstant(std::time::Instant);

/// Relies on `std::time::Instant::now`, for the moment an error is raised.
#[verifier::external_body]
fn now() -> (r: std::time::Instant) {
    std::time::Instant::now()
}

/// Relies on `std::time::Instant::elapsed`, for how long ago an error was raised,
/// in whole milliseconds (saturating at `u64::MAX`).
#[verifier::external_body]
fn elapsed_ms(t: &std::time::Instant) -> (r: u64) {
    u64::try_from(t.elapsed().as_millis()).unwrap_or(u64::MAX)
}

/// How many errors are shown at most.
pub const SHOWN_ERRORS: usize = 3;

/// How long an error stays shown, in milliseconds.
pub const ERROR_DURATION_MS: u64 = 3000;

/// The errors shown, newest first, looking from the `k`-th newest on: among the
/// `SHOWN_ERRORS` newest, those raised less than `ERROR_DURATION_MS` ago, where
/// `ages[i]` is how long ago `messages[i]` was raised.
pub open spec fn shown_from(messages: Seq<Seq<char>>, ages: Seq<u64>, k: nat) -> Seq<Seq<char>>
    decreases SHOWN_ERRORS - k,
{
    let n = messages.len();
    if k >= SHOWN_ERRORS || k >= n {
        seq![]
    } else {
        let i = n - 1 - k;
        (if ages[i] < ERROR_DURATION_MS {
            seq![messages[i]]
        } else {
            seq![]
        }) + shown_from(messages, ages, k + 1)
    }
}

/// The messages of the errors shown, newest first: among the three newest, those
/// raised less than three seconds ago, where `ages_ms[i]` is how long ago, in
/// milliseconds, `messages[i]` was raised.
pub fn shown_errors(messages: &Vec<String>, ages_ms: &Vec<u64>) -> (r: Vec<String>)
    requires
        ages_ms.len() == messages.len(),
    ensures
        views(r@) == shown_from(views(messages@), ages_ms@, 0),
{
    let n = messages.len();
    let mut r: Vec<String> = Vec::new();
    let mut k: usize = 0;
    while k < SHOWN_ERRORS && k < n
        invariant
            n == messages.len() == ages_ms.len(),
            k <= SHOWN_ERRORS,
            views(r@) + shown_from(views(messages@), ages_ms@, k as nat) == shown_from(
                views(messages@),
                ages_ms@,
                0,
            ),
        decreases SHOWN_ERRORS - k,
    {
        let i = n - 1 - k;
        let ghost before = r@;
        let ghost rest = shown_from(views(messages@), ages_ms@, (k + 1) as nat);
        if ages_ms[i] < ERROR_DURATION_MS {
            r.push(messages[i].clone());
            assert(views(r@) =~= views(before).push(messages@[i as int]@));
            assert(views(r@) + rest =~= views(before) + (seq![views(messages@)[i as int]] + rest));
        } else {
            assert(seq![] + rest =~= rest);
        }
        k = k + 1;
    }
    assert(views(r@) + Seq::<Seq<char>>::empty() =~= views(r@));
    r
}

/// One error, with the moment it was raised.
#[derive(Debug)]
pub struct ErrorMessage {
    /// What went wrong.
    pub message: String,
    /// When the error was raised.
    pub timestamp: std::time::Instant,
}

impl ErrorMessage {
    /// The error `message`, raised now.
    pub fn new(message: String) -> (r: ErrorMessage)
        ensures
            r.message == message,
    {
        ErrorMessage { message, timestamp: now() }
    }
}

/// The errors raised so far, oldest first.
#[derive(Debug)]
pub struct Errors {
    pub errors: Vec<ErrorMessage>,
}

impl Default for Errors {
    /// No errors.
    fn default() -> (r: Errors)
        ensures
            r.errors.len() == 0,
    {
        Errors { errors: Vec::new() }
    }
}

impl Errors {
    /// Adds the error `error`, raised now, after the others.
    pub fn push(&mut self, error: String)
        ensures
            final(self).errors.len() == old(self).errors.len() + 1,
            final(self).errors@.take(old(self).errors.len() as int) == old(self).errors@,
            final(self).errors@.last().message == error,
    {
        self.errors.push(ErrorMessage::new(error));
        assert(final(self).errors@.take(old(self).errors.len() as int) =~= old(self).errors@);
    }

    /// The messages of the errors to show now, newest first: among the three
    /// newest, those raised less than three seconds ago.
    pub fn shown(&self) -> (r: Vec<String>)
        ensures
            exists|ages: Seq<u64>|
                ages.len() == self.errors.len() && views(r@) == shown_from(
                    self.errors@.map_values(|e: ErrorMessage| e.message@),
                    ages,
                    0,
                ),
    {
        let mut messages: Vec<String> = Vec::new();
        let mut ages: Vec<u64> = Vec::new();
        let mut k: usize = 0;
        while k < self.errors.len()
            invariant
                k <= self.errors.len(),
                messages.len() == k,
                ages.len() == k,
                forall|i: int| 0 <= i < k ==> #[trigger] messages@[i] == self.errors@[i].message,
            decreases self.errors.len() - k,
        {
            messages.push(self.errors[k].message.clone());
            ages.push(elapsed_ms(&self.errors[k].timestamp));
            k = k + 1;
        }
        let r = shown_errors(&messages, &ages);
        assert(views(messages@) =~= self.errors@.map_values(|e: ErrorMessage| e.message@));
        r
    }

    /// Drops every error.
    pub fn clear(&mut self)
        ensures
            final(self).errors.len() == 0,
    {
        self.errors.clear();
    }
}

} // verus!
