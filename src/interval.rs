//! The rotation interval: a number of seconds, 5 at start, replaced by a
//! setter that accepts only non-negative integers.
use vstd::prelude::*;

verus! {

/// The interval a new cell starts with, in seconds.
pub const DEFAULT_INTERVAL_SECS: u64 = 5;

#[verifier::external_type_specification]
#[verifier::external_body]
pub struct ExJsonValue(serde_json::Value);

/// What `serde_json::Value::as_u64` returns for a value: `Some` of the number
/// where the value is a number that fits a `u64`, `None` otherwise.
pub uninterp spec fn u64_of_json(v: serde_json::Value) -> Option<u64>;

/// Relies on `serde_json::Value::as_u64`: its result depends on the value alone.
pub assume_specification[ serde_json::Value::as_u64 ](v: &serde_json::Value) -> (r: Option<u64>)
    ensures
        r == u64_of_json(*v),
;

/// Why a new interval was refused.
#[derive(Clone, Copy, Debug, PartialEq, Eq, Structural)]
pub enum RateError {
    /// The value is not a non-negative integer.
    InvalidValue,
    /// The cell that the setter forwards to is gone.
    CellGone,
}

/// The current rotation interval, in seconds.
pub struct IntervalCell {
    secs: u64,
}

impl View for IntervalCell {
    type V = u64;

    closed spec fn view(&self) -> u64 {
        self.secs
    }
}

impl IntervalCell {
    /// A cell holding the default interval.
    pub fn new() -> (r: IntervalCell)
        ensures
            r@ == DEFAULT_INTERVAL_SECS,
    {
        IntervalCell { secs: DEFAULT_INTERVAL_SECS }
    }

    /// A cell holding `secs`.
    pub fn with_secs(secs: u64) -> (r: IntervalCell)
        ensures
            r@ == secs,
    {
        IntervalCell { secs }
    }

    /// The current interval.
    pub fn get(&self) -> (r: u64)
        ensures
            r == self@,
    {
        self.secs
    }

    /// Replaces the interval.
    pub fn set(&mut self, secs: u64)
        ensures
            final(self)@ == secs,
    {
        self.secs = secs;
    }

    /// Stores a candidate interval: `None` stands for a value that is not a
    /// non-negative integer and is refused, leaving the cell as it was.
    /// Returns the accepted interval.
    pub fn apply_rate(&mut self, candidate: Option<u64>) -> (r: Result<u64, RateError>)
        ensures
            (final(self)@, r) == rate_after(old(self)@, candidate),
    {
        match candidate {
            Some(n) => {
                self.set(n);
                Ok(n)
            },
            None => Err(RateError::InvalidValue),
        }
    }

    /// Stores a JSON value as the new interval where it is a non-negative
    /// integer; refuses it with `InvalidValue` otherwise. On success the
    /// cell holds the returned interval; on failure it is unchanged.
    pub fn set_value(&mut self, value: &serde_json::Value) -> (r: Result<u64, RateError>)
        ensures
            (final(self)@, r) == rate_after(old(self)@, u64_of_json(*value)),
    {
        self.apply_rate(value.as_u64())
    }
}

/// Forwards a candidate interval to a cell that the caller does not own:
/// `None` for the candidate stands for a value that is not a non-negative
/// integer, `None` for the cell for a cell that is gone. The value is judged
/// first.
pub fn forward_candidate(cell: Option<&mut IntervalCell>, candidate: Option<u64>) -> (r: Result<
    u64,
    RateError,
>)
    ensures
        candidate is None ==> r == Err::<u64, RateError>(RateError::InvalidValue),
        candidate is Some && cell is None ==> r == Err::<u64, RateError>(RateError::CellGone),
        candidate matches Some(n) ==> (cell matches Some(c) ==> r == Ok::<u64, RateError>(n) && final(c)@ == n),
        candidate is None ==> (cell matches Some(c) ==> final(c)@ == c@),
{
    match candidate {
        None => Err(RateError::InvalidValue),
        Some(n) => match cell {
            Some(c) => c.apply_rate(Some(n)),
            None => Err(RateError::CellGone),
        },
    }
}

/// Forwards a JSON value to a cell that the caller does not own: refused with
/// `InvalidValue` unless it is a non-negative integer, then stored where the
/// cell is still there and refused with `CellGone` where it is not.
pub fn forward_rate(cell: Option<&mut IntervalCell>, value: &serde_json::Value) -> (r: Result<
    u64,
    RateError,
>)
    ensures
        u64_of_json(*value) is None ==> r == Err::<u64, RateError>(RateError::InvalidValue),
        u64_of_json(*value) is Some && cell is None ==> r == Err::<u64, RateError>(RateError::CellGone),
        u64_of_json(*value) matches Some(n) ==> (cell matches Some(c) ==> r == Ok::<u64, RateError>(n) && final(c)@ == n),
        u64_of_json(*value) is None ==> (cell matches Some(c) ==> final(c)@ == c@),
{
    forward_candidate(cell, value.as_u64())
}

/// The interval held and the answer given after a candidate is offered to a
/// cell holding `current`.
pub open spec fn rate_after(current: u64, candidate: Option<u64>) -> (u64, Result<u64, RateError>) {
    match candidate {
        Some(n) => (n, Ok(n)),
        None => (current, Err(RateError::InvalidValue)),
    }
}

/// Offering a non-negative integer and then reading the cell gives that
/// integer back; a refused value leaves what is read unchanged.
pub proof fn lemma_set_then_get(current: u64, candidate: Option<u64>)
    ensures
        candidate matches Some(n) ==> rate_after(current, candidate) == (n, Ok::<u64, RateError>(n)),
        candidate is None ==> rate_after(current, candidate) == (current, Err::<u64, RateError>(RateError::InvalidValue)),
{
}

} // verus!
