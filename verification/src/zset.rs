//! The bounded score-range cursor over a sorted-set key.
//!
//! The host owns the sorted set and the cursor position. This module owns the
//! decisions: whether a cursor may be opened at all, what exactly the host is
//! asked for, when iteration is over, in which direction the cursor moves, and
//! whether a cursor is still owed its release. The caller performs each host
//! operation and reports back what the host said.

use vstd::prelude::*;
use crate::value::{ErrorView, RedisError};

verus! {

/// How the host classifies the value that a key holds.
#[derive(Clone, Copy, Debug, PartialEq, Eq, Structural)]
pub enum KeyType {
    Empty,
    String,
    List,
    Hash,
    /// A set without scores.
    PlainSet,
    /// A sorted set: members ordered by score.
    ZSet,
    Module,
    Stream,
}

/// The host's answer to a request that can only succeed or fail.
#[derive(Clone, Copy, Debug, PartialEq, Eq, Structural)]
pub enum Status {
    Okay,
    Failed,
}

/// The key type that the host's classification code stands for.
pub open spec fn key_type_of(code: i32) -> Option<KeyType> {
    if code == 0 {
        Some(KeyType::Empty)
    } else if code == 1 {
        Some(KeyType::String)
    } else if code == 2 {
        Some(KeyType::List)
    } else if code == 3 {
        Some(KeyType::Hash)
    } else if code == 4 {
        Some(KeyType::PlainSet)
    } else if code == 5 {
        Some(KeyType::ZSet)
    } else if code == 6 {
        Some(KeyType::Module)
    } else if code == 7 {
        Some(KeyType::Stream)
    } else {
        None
    }
}

/// The status that the host's return code stands for.
pub open spec fn status_of(code: i32) -> Option<Status> {
    if code == 0 {
        Some(Status::Okay)
    } else if code == 1 {
        Some(Status::Failed)
    } else {
        None
    }
}

impl KeyType {
    /// Reads the host's classification code; a code outside the host's list
    /// stands for nothing.
    pub fn from_code(code: i32) -> (res: Option<KeyType>)
        ensures
            res == key_type_of(code),
    {
        match code {
            0 => Some(KeyType::Empty),
            1 => Some(KeyType::String),
            2 => Some(KeyType::List),
            3 => Some(KeyType::Hash),
            4 => Some(KeyType::PlainSet),
            5 => Some(KeyType::ZSet),
            6 => Some(KeyType::Module),
            7 => Some(KeyType::Stream),
            _ => None,
        }
    }
}

impl Status {
    /// Reads the host's return code: 0 for success, 1 for failure, nothing
    /// else.
    pub fn from_code(code: i32) -> (res: Option<Status>)
        ensures
            res == status_of(code),
    {
        match code {
            0 => Some(Status::Okay),
            1 => Some(Status::Failed),
            _ => None,
        }
    }
}

/// A score, carried as the bit pattern of its IEEE-754 double.
///
/// Scores pass through this module untouched; only the host compares them.
#[derive(Clone, Copy, Debug, PartialEq, Eq, Structural)]
pub struct Score {
    pub bits: u64,
}

/// One end of a score interval.
#[derive(Clone, Copy, Debug, PartialEq, Eq, Structural)]
pub enum ScoreBound {
    /// The interval reaches the score and contains it.
    Included(Score),
    /// The interval reaches the score and leaves it out.
    Excluded(Score),
    /// The interval has no end on this side.
    Unbounded,
}

/// What the host is asked to open: a finite interval, an exclusion flag for
/// each end, and the end of the interval at which the cursor starts.
#[derive(Clone, Copy, Debug, PartialEq, Eq, Structural)]
pub struct RangeRequest {
    /// Start at the last element of the interval rather than the first.
    pub last: bool,
    pub min: Score,
    pub max: Score,
    pub min_exclusive: bool,
    pub max_exclusive: bool,
}

/// Where a cursor stands in its life.
#[derive(Clone, Copy, Debug, PartialEq, Eq, Structural)]
pub enum Phase {
    /// The request has passed the checks; the host has not opened it yet.
    Uninitialized,
    /// The host holds an open cursor for the request.
    Active,
    /// Terminal: no cursor is open and none will be.
    Stopped,
}

/// The host primitive that moves an open cursor by one element.
#[derive(Clone, Copy, Debug, PartialEq, Eq, Structural)]
pub enum Advance {
    /// Towards higher scores.
    Next,
    /// Towards lower scores.
    Prev,
}

/// The error for an interval that is open-ended on either side.
pub open spec fn unsupported_range() -> ErrorView {
    ErrorView::Str("unbounded range is unsupported"@)
}

/// The error for a request that the host declined to open.
pub open spec fn open_failed() -> ErrorView {
    ErrorView::Str("failed to create ZSet iterator"@)
}

/// The score and exclusion flag of a finite bound, or nothing for an open end.
pub open spec fn bound_parts(bound: ScoreBound) -> Option<(Score, bool)> {
    match bound {
        ScoreBound::Included(score) => Some((score, false)),
        ScoreBound::Excluded(score) => Some((score, true)),
        ScoreBound::Unbounded => None,
    }
}

/// The finite bound with the given score and exclusion flag.
pub open spec fn bound_of(score: Score, exclusive: bool) -> ScoreBound {
    if exclusive {
        ScoreBound::Excluded(score)
    } else {
        ScoreBound::Included(score)
    }
}

/// Splits a bound into its score and a flag that says whether the score itself
/// is left out of the interval. An open end is refused.
pub fn extract_bound(bound: ScoreBound) -> (res: Result<(Score, bool), RedisError>)
    ensures
        match bound_parts(bound) {
            Some(parts) => res == Ok::<(Score, bool), RedisError>(parts),
            None => res matches Err(e) && e@ == unsupported_range(),
        },
{
    match bound {
        ScoreBound::Included(score) => Ok((score, false)),
        ScoreBound::Excluded(score) => Ok((score, true)),
        ScoreBound::Unbounded => Err(RedisError::Str("unbounded range is unsupported")),
    }
}

/// The request that a key type, two bounds and a starting end amount to, or
/// the error that refuses them. The key's type is judged first.
pub open spec fn plan(
    key_type: KeyType,
    lower: ScoreBound,
    upper: ScoreBound,
    last: bool,
) -> Result<RangeRequest, ErrorView> {
    if key_type != KeyType::ZSet {
        Err(ErrorView::WrongType)
    } else {
        match (bound_parts(lower), bound_parts(upper)) {
            (Some(low), Some(high)) => Ok(
                RangeRequest {
                    last,
                    min: low.0,
                    max: high.0,
                    min_exclusive: low.1,
                    max_exclusive: high.1,
                },
            ),
            _ => Err(unsupported_range()),
        }
    }
}

/// What a cursor yields when the host has answered the end-reached question
/// with `end_reached`: nothing unless the cursor is active and the host said
/// anything but 1; else the current element, after which the cursor moves by
/// `direction`.
pub open spec fn step(phase: Phase, end_reached: i32, direction: Advance) -> Option<Advance> {
    if phase == Phase::Active && end_reached != 1 {
        Some(direction)
    } else {
        None
    }
}

/// The phase of a cursor once the host has answered its request: active if
/// the cursor was waiting and the host succeeded, unchanged otherwise.
pub open spec fn after_open(phase: Phase, status: Status) -> Phase {
    if phase == Phase::Uninitialized && status == Status::Okay {
        Phase::Active
    } else {
        phase
    }
}

/// Whether the host holds an open cursor on behalf of a cursor in `phase`,
/// which the caller must release when the cursor is stopped.
pub open spec fn owes_release(phase: Phase) -> bool {
    phase == Phase::Active
}

/// A cursor owes a release exactly from the host's success onwards: not
/// while it waits, not after the host declined, and not once it is stopped,
/// so that no cursor is released twice. Steps leave the phase alone, so a
/// cursor dropped halfway owes its release like any other.
pub proof fn lemma_release_owed_once(status: Status)
    ensures
        !owes_release(Phase::Uninitialized),
        !owes_release(Phase::Stopped),
        owes_release(after_open(Phase::Uninitialized, status)) == (status == Status::Okay),
{
}

/// A cursor yields elements only while the host holds it open: before the
/// host's success and after the stop every step ends the iteration, whatever
/// the host is said to have answered.
pub proof fn lemma_only_open_cursor_yields(phase: Phase, end_reached: i32, direction: Advance)
    ensures
        step(phase, end_reached, direction) is Some ==> owes_release(phase),
        step(phase, end_reached, direction) matches Some(advance) ==> advance == direction,
        end_reached == 1 ==> step(phase, end_reached, direction) is None,
{
}

/// A key that is not a sorted set is refused as of the wrong type, whatever
/// the interval and the starting end.
pub proof fn lemma_wrong_type_refused(
    key_type: KeyType,
    lower: ScoreBound,
    upper: ScoreBound,
    last: bool,
)
    requires
        key_type != KeyType::ZSet,
    ensures
        plan(key_type, lower, upper, last) == Err::<RangeRequest, ErrorView>(ErrorView::WrongType),
{
}

/// On a sorted set, an interval without a lower or without an upper end is
/// refused as unsupported, whatever the other end and the starting end.
pub proof fn lemma_unbounded_refused(lower: ScoreBound, upper: ScoreBound, last: bool)
    requires
        lower is Unbounded || upper is Unbounded,
    ensures
        plan(KeyType::ZSet, lower, upper, last) == Err::<RangeRequest, ErrorView>(
            unsupported_range(),
        ),
{
}

/// On a sorted set, two finite bounds are always accepted, and the request
/// carries their scores unchanged, excluding exactly the excluded ends.
pub proof fn lemma_finite_accepted(lower: ScoreBound, upper: ScoreBound, last: bool)
    requires
        !(lower is Unbounded),
        !(upper is Unbounded),
    ensures
        plan(KeyType::ZSet, lower, upper, last) matches Ok(request) && {
            &&& request.last == last
            &&& lower == bound_of(request.min, request.min_exclusive)
            &&& upper == bound_of(request.max, request.max_exclusive)
        },
{
}

/// A cursor over the members of a sorted set whose scores lie in an interval.
///
/// The value tracks the cursor's phase and remembers the request it was made
/// for. It borrows nothing: the caller keeps the key, and keeps it alive and
/// unchanged for as long as the cursor is active.
#[derive(Debug)]
pub struct ZSetScoreIterator {
    request: RangeRequest,
    phase: Phase,
}

impl ZSetScoreIterator {
    /// The request this cursor was made for.
    pub closed spec fn spec_request(&self) -> RangeRequest {
        self.request
    }

    /// The phase this cursor is in.
    pub closed spec fn spec_phase(&self) -> Phase {
        self.phase
    }

    /// Checks a key type and an interval and, if both are acceptable, returns a
    /// cursor that waits for the host to open it.
    ///
    /// A key that is not a sorted set is refused as of the wrong type, whatever
    /// the interval. On a sorted set, an interval that is open-ended on either
    /// side is refused as unsupported. Nothing has been opened when this
    /// returns, so a refusal leaves nothing to release.
    pub fn new(key_type: KeyType, lower: ScoreBound, upper: ScoreBound, last: bool) -> (res: Result<
        ZSetScoreIterator,
        RedisError,
    >)
        ensures
            match plan(key_type, lower, upper, last) {
                Ok(request) => res matches Ok(it) && it.spec_request() == request
                    && it.spec_phase() == Phase::Uninitialized,
                Err(error) => res matches Err(e) && e@ == error,
            },
    {
        if key_type != KeyType::ZSet {
            return Err(RedisError::WrongType);
        }
        let (min, min_exclusive) = match extract_bound(lower) {
            Ok(parts) => parts,
            Err(e) => { return Err(e); },
        };
        let (max, max_exclusive) = match extract_bound(upper) {
            Ok(parts) => parts,
            Err(e) => { return Err(e); },
        };
        Ok(
            ZSetScoreIterator {
                request: RangeRequest { last, min, max, min_exclusive, max_exclusive },
                phase: Phase::Uninitialized,
            },
        )
    }

    /// Records the host's answer to the request.
    ///
    /// On success the cursor becomes active. On failure it stays as it was,
    /// with nothing open, and the failure is reported.
    pub fn open(&mut self, status: Status) -> (res: Result<(), RedisError>)
        requires
            old(self).spec_phase() == Phase::Uninitialized,
        ensures
            final(self).spec_request() == old(self).spec_request(),
            final(self).spec_phase() == after_open(old(self).spec_phase(), status),
            match status {
                Status::Okay => res is Ok,
                Status::Failed => res matches Err(e) && e@ == open_failed(),
            },
    {
        match status {
            Status::Okay => {
                self.phase = Phase::Active;
                Ok(())
            },
            Status::Failed => Err(RedisError::Str("failed to create ZSet iterator")),
        }
    }

    /// One step towards higher scores. `end_reached` is the host's answer to
    /// the end-reached question, asked just before.
    ///
    /// `Some` tells the caller to take the current element and then move the
    /// cursor by the primitive returned; `None` ends the iteration. The cursor
    /// keeps its phase either way: exhaustion is no error and closes nothing.
    /// A cursor is meant to be walked in one direction for all its life.
    pub fn next(&mut self, end_reached: i32) -> (res: Option<Advance>)
        ensures
            res == step(old(self).spec_phase(), end_reached, Advance::Next),
            final(self).spec_phase() == old(self).spec_phase(),
            final(self).spec_request() == old(self).spec_request(),
    {
        match self.phase {
            Phase::Active => {
                if end_reached == 1 {
                    return None;
                }
                Some(Advance::Next)
            },
            _ => None,
        }
    }

    /// One step towards lower scores; otherwise as [`ZSetScoreIterator::next`].
    pub fn next_back(&mut self, end_reached: i32) -> (res: Option<Advance>)
        ensures
            res == step(old(self).spec_phase(), end_reached, Advance::Prev),
            final(self).spec_phase() == old(self).spec_phase(),
            final(self).spec_request() == old(self).spec_request(),
    {
        match self.phase {
            Phase::Active => {
                if end_reached == 1 {
                    return None;
                }
                Some(Advance::Prev)
            },
            _ => None,
        }
    }

    /// Ends the cursor's life, however much of the interval was walked.
    ///
    /// Returns whether the host holds an open cursor that the caller must now
    /// release: true exactly for an active cursor. A cursor that was never
    /// opened, or was stopped before, owes nothing.
    pub fn stop(&mut self) -> (release: bool)
        ensures
            release == owes_release(old(self).spec_phase()),
            final(self).spec_phase() == Phase::Stopped,
            final(self).spec_request() == old(self).spec_request(),
    {
        let release = self.phase == Phase::Active;
        self.phase = Phase::Stopped;
        release
    }

    /// The request to put to the host.
    pub fn request(&self) -> (r: RangeRequest)
        ensures
            r == self.spec_request(),
    {
        self.request
    }

    /// The phase this cursor is in.
    pub fn phase(&self) -> (p: Phase)
        ensures
            p == self.spec_phase(),
    {
        self.phase
    }
}

} // verus!
