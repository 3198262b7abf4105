//! The guarded machine itself: it holds the current state and the state
//! held immediately before the last successful commit, and changes only
//! through `apply`, which validates each request against the transition
//! table before committing it.

use vstd::prelude::*;

use crate::transition_table::State;
use crate::transition_table::Transition;
use crate::transition_table::spec_lookup;
use crate::transition_table::lookup;
use crate::transition_table::legal_from;
use crate::transition_table::path_leads;

verus! {

/// The record of one call of `apply` that succeeded: either the sentinel
/// was applied and no hook ran, or an edge was committed and this is the
/// record the edge's hook receives for observability.
#[derive(Clone, Copy, Debug, PartialEq, Eq, Structural)]
pub enum TransitionOutcome {
    /// The sentinel was applied: nothing changed and no hook was invoked.
    NoOp,
    /// An edge was committed: the transition taken, the state held before
    /// it, and the state it resulted in.
    Committed { transition: Transition, previous: State, current: State },
}

/// The requested transition's required origin differs from the machine's
/// actual current state. Carries the offending transition identifier and
/// the current state for diagnostics.
#[derive(Clone, Copy, Debug, PartialEq, Eq, Structural)]
pub struct IllegalTransitionError {
    pub transition: Transition,
    pub current_state: State,
}

/// The current state after one call of `apply` with `t` from `curr`: moved
/// to the edge's resulting state when the guard passes, unchanged when the
/// request is the sentinel or is rejected.
pub open spec fn step_current(curr: State, t: Transition) -> State {
    match spec_lookup(t) {
        Some(entry) => if entry.0 == curr { entry.1 } else { curr },
        None => curr,
    }
}

/// The previous state after one call of `apply` with `t`, given the states
/// `curr` and `prev` held before the call: a commit records the state it
/// moved away from; the sentinel and a rejected request leave it alone.
pub open spec fn step_previous(curr: State, prev: State, t: Transition) -> State {
    match spec_lookup(t) {
        Some(entry) => if entry.0 == curr { curr } else { prev },
        None => prev,
    }
}

/// The current state after `n` calls of `apply` with `t` in a row,
/// starting from `curr`.
pub open spec fn iter_current(curr: State, t: Transition, n: nat) -> State
    decreases n,
{
    if n == 0 {
        curr
    } else {
        step_current(iter_current(curr, t, (n - 1) as nat), t)
    }
}

/// Law: every declared edge commits from its own origin. With the machine
/// at an edge's required origin, the edge passes the guard, applying it
/// moves the current state to the edge's resulting state, and the previous
/// state becomes the origin, whatever it held before.
pub proof fn lemma_declared_edge_commits(
    origin: State,
    t: Transition,
    destination: State,
    prev: State,
)
    requires
        spec_lookup(t) == Some((origin, destination)),
    ensures
        legal_from(origin, t),
        step_current(origin, t) == destination,
        step_previous(origin, prev, t) == origin,
{
}

/// Law: a request whose declared origin differs from the machine's state
/// fails the guard and has no effect: neither the current nor the previous
/// state moves.
pub proof fn lemma_illegal_edge_rejected(s: State, prev: State, t: Transition)
    requires
        spec_lookup(t) matches Some(entry) && entry.0 != s,
    ensures
        !legal_from(s, t),
        step_current(s, t) == s,
        step_previous(s, prev, t) == prev,
{
}

/// Law: the sentinel is a no-op from every state: the current and the
/// previous state are both unchanged. (`apply` additionally returns the
/// marker that no hook was invoked.)
pub proof fn lemma_sentinel_noop(s: State, prev: State)
    ensures
        step_current(s, Transition::NoTransition) == s,
        step_previous(s, prev, Transition::NoTransition) == prev,
{
}

/// Law: self-loops are idempotent. From a self-loop's own state the edge
/// passes the guard, applying it any number of times in a row leaves the
/// current state put — so the guard holds again before every repetition —
/// and each commit sets the previous state to that same state.
pub proof fn lemma_self_loop_idempotent(s: State, t: Transition, prev: State, n: nat)
    requires
        spec_lookup(t) == Some((s, s)),
    ensures
        legal_from(s, t),
        iter_current(s, t, n) == s,
        step_previous(s, prev, t) == s,
    decreases n,
{
    if n > 0 {
        lemma_self_loop_idempotent(s, t, prev, (n - 1) as nat);
    }
}

/// Along a chain of legal edges the machine follows the chain: its first
/// edge passes the guard at `s`, and applying it moves the current state
/// to the state from which the rest of the chain leads to `goal`.
pub proof fn lemma_path_step(s: State, ts: Seq<Transition>, goal: State)
    requires
        path_leads(s, ts, goal),
        ts.len() > 0,
    ensures
        legal_from(s, ts[0]),
        path_leads(step_current(s, ts[0]), ts.drop_first(), goal),
{
}

/// The machine: its present state, and the state held just before the most
/// recent successful commit (initially the initial state itself).
#[derive(Clone, Copy, Debug)]
pub struct StateMachine {
    prev_state: State,
    curr_state: State,
}

impl StateMachine {
    /// The machine's present state.
    pub closed spec fn spec_current(self) -> State {
        self.curr_state
    }

    /// The state held immediately before the last successful commit.
    pub closed spec fn spec_previous(self) -> State {
        self.prev_state
    }

    /// A fresh machine in the initial state `A`, with the previous state
    /// equal to it.
    pub fn new() -> (m: StateMachine)
        ensures
            m.spec_current() == State::A,
            m.spec_previous() == State::A,
    {
        StateMachine { prev_state: State::A, curr_state: State::A }
    }

    /// The machine's present state. Read-only.
    pub fn current(&self) -> (s: State)
        ensures
            s == self.spec_current(),
    {
        self.curr_state
    }

    /// The state held immediately before the last successful commit.
    /// Read-only.
    pub fn previous(&self) -> (s: State)
        ensures
            s == self.spec_previous(),
    {
        self.prev_state
    }

    /// A borrow of the machine's present state. Read-only.
    pub fn get_curr_state(&self) -> (s: &State)
        ensures
            *s == self.spec_current(),
    {
        &self.curr_state
    }

    /// Validate `transition` against the current state and, when legal,
    /// commit it.
    ///
    /// The sentinel succeeds with no state change and no hook record. A
    /// declared edge whose required origin equals the current state is
    /// committed: the previous state is set to the state moved away from,
    /// the current state to the edge's resulting state, and the record the
    /// edge's hook receives is returned. An edge requested from any other
    /// state is rejected unchanged with `IllegalTransitionError`.
    pub fn apply(&mut self, transition: Transition) -> (r: Result<
        TransitionOutcome,
        IllegalTransitionError,
    >)
        ensures
            final(self).spec_current() == step_current(old(self).spec_current(), transition),
            final(self).spec_previous() == step_previous(
                old(self).spec_current(),
                old(self).spec_previous(),
                transition,
            ),
            match spec_lookup(transition) {
                None => {
                    &&& r == Ok::<TransitionOutcome, IllegalTransitionError>(TransitionOutcome::NoOp)
                    &&& *final(self) == *old(self)
                },
                Some(entry) => {
                    if entry.0 == old(self).spec_current() {
                        &&& final(self).spec_current() == entry.1
                        &&& final(self).spec_previous() == old(self).spec_current()
                        &&& r == Ok::<TransitionOutcome, IllegalTransitionError>(
                            TransitionOutcome::Committed {
                                transition,
                                previous: old(self).spec_current(),
                                current: entry.1,
                            },
                        )
                    } else {
                        &&& *final(self) == *old(self)
                        &&& r == Err::<TransitionOutcome, IllegalTransitionError>(
                            IllegalTransitionError {
                                transition,
                                current_state: old(self).spec_current(),
                            },
                        )
                    }
                },
            },
    {
        match lookup(transition) {
            None => Ok(TransitionOutcome::NoOp),
            Some((origin, destination)) => {
                if origin == self.curr_state {
                    self.prev_state = self.curr_state;
                    self.curr_state = destination;
                    Ok(TransitionOutcome::Committed {
                        transition,
                        previous: self.prev_state,
                        current: self.curr_state,
                    })
                } else {
                    Err(IllegalTransitionError { transition, current_state: self.curr_state })
                }
            },
        }
    }

    /// Apply a transition the caller has already checked: the sentinel, or
    /// an edge whose required origin is the machine's current state. The
    /// sentinel leaves the machine alone; an edge commits as in `apply`.
    pub fn update_state_machine(&mut self, transition: &Transition)
        requires
            spec_lookup(*transition) matches Some(entry) ==> entry.0 == old(
                self,
            ).spec_current(),
        ensures
            match spec_lookup(*transition) {
                None => *final(self) == *old(self),
                Some(entry) => {
                    &&& final(self).spec_current() == entry.1
                    &&& final(self).spec_previous() == old(self).spec_current()
                },
            },
    {
        let _ = self.apply(*transition);
    }
}

impl Default for StateMachine {
    /// Same as `new`: a fresh machine in the initial state `A`.
    fn default() -> (m: Self)
        ensures
            m.spec_current() == State::A,
            m.spec_previous() == State::A,
    {
        StateMachine::new()
    }
}

} // verus!

