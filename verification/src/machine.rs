//! The attempt loop as a state machine.
//!
//! The policy runs no operation and waits for nothing itself. It is told
//! what happened and answers with the state that follows and with what the
//! caller has to do next: run an attempt, ask the retry predicate about the
//! failure, wait, or hand back the outcome.
//!
//! Where the predicate grants a retry, the caller reports with it the
//! uncapped backoff for the failed attempt, `base_delay * factor^(n - 1)`
//! cut to whole nanoseconds, or `None` where that product is not a finite
//! number or does not fit in a `u64`.

use vstd::prelude::*;
use crate::policy::{ConfigError, RetryPolicy};

verus! {

/// Where a retry sequence stands. Attempts are counted from one.
#[derive(Clone, Copy, Debug, PartialEq, Eq, Structural)]
pub enum RetryState {
    /// The attempt with this index is running or about to run.
    Attempting(usize),
    /// The attempt with this index failed, it was not the last one allowed,
    /// and the retry predicate has yet to judge the failure.
    Judging(usize),
    /// Waiting between the attempt with this index and the next.
    Delaying(usize),
    /// An attempt succeeded; its value is the result.
    Succeeded,
    /// The last failure is the result.
    FailedTerminal,
}

/// What the caller reports to the policy.
#[derive(Clone, Copy, Debug, PartialEq, Eq, Structural)]
pub enum RetryEvent {
    /// The running attempt produced a value.
    AttemptSucceeded,
    /// The running attempt produced an error.
    AttemptFailed,
    /// The retry predicate called the last failure final.
    Refused,
    /// The retry predicate called the last failure transient. With it comes
    /// the uncapped backoff for the failed attempt.
    Granted(Option<u64>),
    /// The delay has passed.
    DelayElapsed,
}

/// What the caller has to do on entering a state.
#[derive(Clone, Copy, Debug, PartialEq, Eq, Structural)]
pub enum RetryAction {
    /// Obtain a fresh operation and run it to completion.
    RunAttempt,
    /// Ask the retry predicate whether the last failure is transient.
    AskPredicate,
    /// Wait for this many nanoseconds.
    Sleep(u64),
    /// Return the value of the attempt that succeeded.
    ReturnValue,
    /// Return the error of the attempt that failed last.
    ReturnError,
}

/// What one attempt of a scripted operation produces, and for a failure what
/// the retry predicate says of it.
#[derive(Clone, Copy, Debug, PartialEq, Eq, Structural)]
pub enum Outcome {
    /// The attempt produces a value.
    Success,
    /// The attempt fails and the predicate calls the failure final.
    Fatal,
    /// The attempt fails and the predicate calls the failure transient;
    /// with it comes the uncapped backoff for the attempt.
    Transient(Option<u64>),
}

impl Outcome {
    /// What the predicate is reported to have said of a failure.
    pub open spec fn verdict(&self) -> RetryEvent {
        match *self {
            Outcome::Transient(product) => RetryEvent::Granted(product),
            _ => RetryEvent::Refused,
        }
    }
}

/// What a run over a script of outcomes came to.
pub struct Tally {
    /// Attempts that ran.
    pub attempts: nat,
    /// Times the retry predicate was asked.
    pub verdicts: nat,
    /// Delays that were waited for.
    pub delays: nat,
    /// The state in which the run ended.
    pub end: RetryState,
}

/// What replaying a script of outcomes came to, as [`Tally`] counts it, with
/// each delay that was chosen.
#[derive(Debug)]
pub struct Replay {
    /// Attempts that ran.
    pub attempts: usize,
    /// Times the retry predicate was asked.
    pub verdicts: usize,
    /// The delay chosen after each attempt that was retried, in order.
    pub delays: Vec<u64>,
    /// The state in which the replay ended.
    pub end: RetryState,
}

impl RetryState {
    /// The sequence is over: it succeeded, or failed for good.
    pub open spec fn is_terminal(&self) -> bool {
        *self is Succeeded || *self is FailedTerminal
    }
}

impl RetryPolicy {
    /// Whether `event` is one that can happen in `state` under this policy.
    pub open spec fn accepts(&self, state: RetryState, event: RetryEvent) -> bool {
        self.is_valid() && match state {
            RetryState::Attempting(n) => 1 <= n <= self.attempts && (event is AttemptSucceeded
                || event is AttemptFailed),
            RetryState::Judging(n) => 1 <= n < self.attempts && (event is Refused
                || event is Granted),
            RetryState::Delaying(n) => 1 <= n < self.attempts && event is DelayElapsed,
            RetryState::Succeeded => false,
            RetryState::FailedTerminal => false,
        }
    }

    /// The state that follows `state` on an event that it accepts.
    pub open spec fn next_state(&self, state: RetryState, event: RetryEvent) -> RetryState
        recommends
            self.accepts(state, event),
    {
        match state {
            RetryState::Attempting(n) => if event is AttemptSucceeded {
                RetryState::Succeeded
            } else if n >= self.attempts {
                RetryState::FailedTerminal
            } else {
                RetryState::Judging(n)
            },
            RetryState::Judging(n) => if event is Granted {
                RetryState::Delaying(n)
            } else {
                RetryState::FailedTerminal
            },
            RetryState::Delaying(n) => RetryState::Attempting((n + 1) as usize),
            RetryState::Succeeded => state,
            RetryState::FailedTerminal => state,
        }
    }

    /// Whether `action` is what the caller has to do on entering `state`
    /// upon `event`. Each state has one action; only the length of a delay
    /// may be drawn at random, within what the policy admits for that
    /// attempt and the product that came with the event.
    pub open spec fn admits_action(
        &self,
        state: RetryState,
        event: RetryEvent,
        action: RetryAction,
    ) -> bool {
        match state {
            RetryState::Attempting(_) => action == RetryAction::RunAttempt,
            RetryState::Judging(_) => action == RetryAction::AskPredicate,
            RetryState::Delaying(n) => event matches RetryEvent::Granted(product)
                && action matches RetryAction::Sleep(delay) && self.admits_delay(
                n,
                product,
                delay,
            ),
            RetryState::Succeeded => action == RetryAction::ReturnValue,
            RetryState::FailedTerminal => action == RetryAction::ReturnError,
        }
    }

    /// Begins a retry sequence: the first attempt is to be run. A policy
    /// that is not valid is refused, so that no sequence ends without a
    /// result.
    pub fn start(&self) -> (res: Result<(RetryState, RetryAction), ConfigError>)
        ensures
            self.is_valid() ==> res == Ok::<(RetryState, RetryAction), ConfigError>(
                (RetryState::Attempting(1), RetryAction::RunAttempt),
            ),
            self.attempts == 0 ==> res == Err::<(RetryState, RetryAction), ConfigError>(
                ConfigError::ZeroAttempts,
            ),
    {
        match self.validate() {
            Ok(()) => Ok((RetryState::Attempting(1), RetryAction::RunAttempt)),
            Err(e) => Err(e),
        }
    }

    /// Takes one step: given the state and what happened in it, returns the
    /// state that follows and what to do there. Returns `None`, and decides
    /// nothing, for an event that the state does not accept.
    pub fn step(&self, state: RetryState, event: RetryEvent) -> (res: Option<
        (RetryState, RetryAction),
    >)
        ensures
            res is Some <==> self.accepts(state, event),
            res matches Some((next, action)) ==> next == self.next_state(state, event)
                && self.admits_action(next, event, action),
    {
        if self.validate().is_err() {
            return None;
        }
        match state {
            RetryState::Attempting(n) => {
                if n < 1 || n > self.attempts {
                    return None;
                }
                match event {
                    RetryEvent::AttemptSucceeded => Some(
                        (RetryState::Succeeded, RetryAction::ReturnValue),
                    ),
                    RetryEvent::AttemptFailed => {
                        if n >= self.attempts {
                            Some((RetryState::FailedTerminal, RetryAction::ReturnError))
                        } else {
                            Some((RetryState::Judging(n), RetryAction::AskPredicate))
                        }
                    },
                    _ => None,
                }
            },
            RetryState::Judging(n) => {
                if n < 1 || n >= self.attempts {
                    return None;
                }
                match event {
                    RetryEvent::Granted(product) => {
                        let delay = self.next_delay(n, product);
                        Some((RetryState::Delaying(n), RetryAction::Sleep(delay)))
                    },
                    RetryEvent::Refused => Some(
                        (RetryState::FailedTerminal, RetryAction::ReturnError),
                    ),
                    _ => None,
                }
            },
            RetryState::Delaying(n) => {
                if n < 1 || n >= self.attempts {
                    return None;
                }
                match event {
                    RetryEvent::DelayElapsed => Some(
                        (RetryState::Attempting(n + 1), RetryAction::RunAttempt),
                    ),
                    _ => None,
                }
            },
            RetryState::Succeeded => None,
            RetryState::FailedTerminal => None,
        }
    }

    /// What a run comes to that starts in `state` and meets the scripted
    /// `outcomes` in turn, one per attempt. It ends in a terminal state, or
    /// where the script runs out.
    pub open spec fn run(&self, state: RetryState, outcomes: Seq<Outcome>) -> Tally
        decreases outcomes.len(),
    {
        if outcomes.len() == 0 || !self.accepts(state, RetryEvent::AttemptFailed) {
            Tally { attempts: 0, verdicts: 0, delays: 0, end: state }
        } else {
            match outcomes[0] {
                Outcome::Success => Tally {
                    attempts: 1,
                    verdicts: 0,
                    delays: 0,
                    end: self.next_state(state, RetryEvent::AttemptSucceeded),
                },
                failure => {
                    let failed = self.next_state(state, RetryEvent::AttemptFailed);
                    let judged = self.next_state(failed, failure.verdict());
                    if !(failed is Judging) {
                        Tally { attempts: 1, verdicts: 0, delays: 0, end: failed }
                    } else if !(judged is Delaying) {
                        Tally { attempts: 1, verdicts: 1, delays: 0, end: judged }
                    } else {
                        let rest = self.run(
                            self.next_state(judged, RetryEvent::DelayElapsed),
                            outcomes.skip(1),
                        );
                        Tally {
                            attempts: rest.attempts + 1,
                            verdicts: rest.verdicts + 1,
                            delays: rest.delays + 1,
                            end: rest.end,
                        }
                    }
                },
            }
        }
    }

    /// Whether `delay` is a delay that the policy may use after attempt
    /// `attempt` where that attempt's scripted outcome is `outcome`: the
    /// outcome is a transient failure, and the policy admits the delay for
    /// the product that comes with it.
    pub open spec fn delay_fits(&self, outcome: Outcome, attempt: usize, delay: u64) -> bool {
        outcome matches Outcome::Transient(product) && self.admits_delay(attempt, product, delay)
    }

    /// Replays a script of outcomes, one per attempt, against the policy:
    /// every decision is taken as in a real sequence, but no operation runs
    /// and no delay is waited for. Returns `None` for a policy that is not
    /// valid.
    pub fn replay(&self, outcomes: &Vec<Outcome>) -> (res: Option<Replay>)
        ensures
            res is Some <==> self.is_valid(),
            res matches Some(seen) ==> {
                let tally = self.run(RetryState::Attempting(1), outcomes@);
                &&& seen.attempts == tally.attempts
                &&& seen.verdicts == tally.verdicts
                &&& seen.delays@.len() == tally.delays
                &&& seen.end == tally.end
                &&& seen.delays@.len() <= outcomes@.len()
                &&& forall|i: int|
                    0 <= i < seen.delays@.len() ==> self.delay_fits(
                        outcomes@[i],
                        (i + 1) as usize,
                        #[trigger] seen.delays@[i],
                    )
            },
    {
        if self.validate().is_err() {
            return None;
        }
        let ghost total = self.run(RetryState::Attempting(1), outcomes@);
        let mut state = RetryState::Attempting(1);
        let mut attempts: usize = 0;
        let mut verdicts: usize = 0;
        let mut delays: Vec<u64> = Vec::new();
        let mut i: usize = 0;
        assert(outcomes@.skip(0) =~= outcomes@);
        while i < outcomes.len()
            invariant
                self.is_valid(),
                i <= outcomes.len(),
                total == self.run(RetryState::Attempting(1), outcomes@),
                attempts == i,
                verdicts == i,
                delays@.len() == i,
                state == RetryState::Attempting((i + 1) as usize),
                i < self.attempts,
                total.attempts == attempts + self.run(state, outcomes@.skip(i as int)).attempts,
                total.verdicts == verdicts + self.run(state, outcomes@.skip(i as int)).verdicts,
                total.delays == delays@.len() + self.run(state, outcomes@.skip(i as int)).delays,
                total.end == self.run(state, outcomes@.skip(i as int)).end,
                forall|j: int|
                    0 <= j < delays@.len() ==> self.delay_fits(
                        outcomes@[j],
                        (j + 1) as usize,
                        #[trigger] delays@[j],
                    ),
            decreases outcomes.len() - i,
        {
            let ghost rest = outcomes@.skip(i as int);
            assert(rest[0] == outcomes@[i as int]);
            assert(rest.skip(1) =~= outcomes@.skip(i + 1));
            let event = match outcomes[i] {
                Outcome::Success => RetryEvent::AttemptSucceeded,
                _ => RetryEvent::AttemptFailed,
            };
            let (after, _) = self.step(state, event).unwrap();
            let verdict = match (after, outcomes[i]) {
                (RetryState::Judging(_), Outcome::Transient(product)) => RetryEvent::Granted(
                    product,
                ),
                (RetryState::Judging(_), _) => RetryEvent::Refused,
                _ => {
                    return Some(Replay { attempts: attempts + 1, verdicts, delays, end: after });
                },
            };
            let (judged, action) = self.step(after, verdict).unwrap();
            let delay = match action {
                RetryAction::Sleep(delay) => delay,
                _ => {
                    return Some(
                        Replay { attempts: attempts + 1, verdicts: verdicts + 1, delays, end: judged },
                    );
                },
            };
            let (resumed, _) = self.step(judged, RetryEvent::DelayElapsed).unwrap();
            assert(self.delay_fits(outcomes@[i as int], (i + 1) as usize, delay));
            let ghost waited = delays@;
            delays.push(delay);
            assert forall|j: int| 0 <= j < delays@.len() implies self.delay_fits(
                outcomes@[j],
                (j + 1) as usize,
                #[trigger] delays@[j],
            ) by {
                if j < waited.len() {
                    assert(delays@[j] == waited[j]);
                }
            }
            attempts = attempts + 1;
            verdicts = verdicts + 1;
            state = resumed;
            i = i + 1;
        }
        Some(Replay { attempts, verdicts, delays, end: state })
    }

    /// A sequence that has succeeded or failed for good takes no further
    /// event: no attempt follows.
    pub proof fn lemma_terminal_is_final(&self, state: RetryState, event: RetryEvent)
        requires
            state.is_terminal(),
        ensures
            !self.accepts(state, event),
    {
    }

    /// A policy with one attempt runs the operation once, whatever it
    /// produces: the retry predicate is not asked and nothing is waited for.
    pub proof fn lemma_single_attempt(&self, outcomes: Seq<Outcome>)
        requires
            self.is_valid(),
            self.attempts == 1,
            outcomes.len() >= 1,
        ensures
            self.run(RetryState::Attempting(1), outcomes).attempts == 1,
            self.run(RetryState::Attempting(1), outcomes).verdicts == 0,
            self.run(RetryState::Attempting(1), outcomes).delays == 0,
            self.run(RetryState::Attempting(1), outcomes).end == if outcomes[0] is Success {
                RetryState::Succeeded
            } else {
                RetryState::FailedTerminal
            },
    {
    }

    /// Where the retry predicate calls no failure transient, one attempt
    /// runs, however many the policy allows.
    pub proof fn lemma_no_retry_when_refused(&self, outcomes: Seq<Outcome>)
        requires
            self.is_valid(),
            outcomes.len() >= 1,
            forall|i: int| 0 <= i < outcomes.len() ==> !(outcomes[i] is Transient),
        ensures
            self.run(RetryState::Attempting(1), outcomes).attempts == 1,
            self.run(RetryState::Attempting(1), outcomes).delays == 0,
            self.run(RetryState::Attempting(1), outcomes).end == if outcomes[0] is Success {
                RetryState::Succeeded
            } else {
                RetryState::FailedTerminal
            },
    {
    }

    /// A run from attempt `from` whose next `failures` attempts fail with a
    /// transient error and whose attempt after those succeeds, all within
    /// the budget, ends in success after `failures + 1` attempts.
    pub proof fn lemma_success_after_failures_from(
        &self,
        from: usize,
        outcomes: Seq<Outcome>,
        failures: nat,
    )
        requires
            self.is_valid(),
            1 <= from,
            from + failures <= self.attempts,
            failures < outcomes.len(),
            forall|i: int| 0 <= i < failures ==> outcomes[i] is Transient,
            outcomes[failures as int] == Outcome::Success,
        ensures
            self.run(RetryState::Attempting(from), outcomes).attempts == failures + 1,
            self.run(RetryState::Attempting(from), outcomes).verdicts == failures,
            self.run(RetryState::Attempting(from), outcomes).delays == failures,
            self.run(RetryState::Attempting(from), outcomes).end == RetryState::Succeeded,
        decreases failures,
    {
        if failures > 0 {
            let rest = outcomes.skip(1);
            assert(outcomes[0] is Transient);
            assert forall|i: int| 0 <= i < failures - 1 implies rest[i] is Transient by {
                assert(rest[i] == outcomes[i + 1]);
            }
            assert(rest[failures - 1] == outcomes[failures as int]);
            self.lemma_success_after_failures_from((from + 1) as usize, rest, (failures - 1) as nat);
        }
    }

    /// With a predicate that calls every failure transient, an operation
    /// that fails `failures` times, fewer than the policy's attempts, and
    /// then succeeds is run `failures + 1` times, and the run ends in
    /// success.
    pub proof fn lemma_success_after_failures(&self, outcomes: Seq<Outcome>, failures: nat)
        requires
            self.is_valid(),
            failures < self.attempts,
            failures < outcomes.len(),
            forall|i: int| 0 <= i < failures ==> outcomes[i] is Transient,
            outcomes[failures as int] == Outcome::Success,
        ensures
            self.run(RetryState::Attempting(1), outcomes).attempts == failures + 1,
            self.run(RetryState::Attempting(1), outcomes).delays == failures,
            self.run(RetryState::Attempting(1), outcomes).end == RetryState::Succeeded,
    {
        self.lemma_success_after_failures_from(1, outcomes, failures);
    }

    /// No run makes more attempts than the policy allows, and it waits and
    /// asks the predicate less often than that.
    pub proof fn lemma_within_budget(&self, from: usize, outcomes: Seq<Outcome>)
        requires
            1 <= from <= self.attempts,
        ensures
            from + self.run(RetryState::Attempting(from), outcomes).attempts <= self.attempts + 1,
            from + self.run(RetryState::Attempting(from), outcomes).delays <= self.attempts,
            from + self.run(RetryState::Attempting(from), outcomes).verdicts <= self.attempts,
        decreases outcomes.len(),
    {
        if outcomes.len() > 0 && from < self.attempts && self.is_valid() {
            self.lemma_within_budget((from + 1) as usize, outcomes.skip(1));
        }
    }
}

} // verus!
