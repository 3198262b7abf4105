//! The declared edges of the machine: for every transition identifier
//! except the sentinel, the required origin state and the resulting state.
//! This table is the single source of truth for legality; the state machine
//! consults it and nothing else.

use vstd::prelude::*;

verus! {

/// One of the five symbolic states the machine can occupy.
#[derive(Clone, Copy, Debug, PartialEq, Eq, Structural)]
pub enum State {
    A,
    B,
    C,
    D,
    E,
}

/// A request for a directed edge between two states, or the sentinel
/// `NoTransition` meaning that no transition is requested this cycle.
///
/// A self-loop such as `AtoA` is a real edge, distinct from the sentinel:
/// it carries its own table entry and commits like any other edge.
#[derive(Clone, Copy, Debug, PartialEq, Eq, Structural)]
pub enum Transition {
    NoTransition,
    AtoA,
    AtoB,
    BtoB,
    BtoC,
    BtoD,
    BtoE,
    CtoC,
    CtoE,
    DtoD,
    DtoE,
    EtoE,
    EtoA,
}

impl Default for State {
    /// The initial state of a fresh machine.
    fn default() -> (s: Self)
        ensures
            s == State::A,
    {
        State::A
    }
}

impl Default for Transition {
    /// The sentinel: no transition requested.
    fn default() -> (t: Self)
        ensures
            t == Transition::NoTransition,
    {
        Transition::NoTransition
    }
}

/// The table entry for a transition: `Some((required origin, resulting
/// state))` for each of the twelve declared edges, `None` for the sentinel
/// alone.
pub open spec fn spec_lookup(t: Transition) -> Option<(State, State)> {
    match t {
        Transition::NoTransition => None,
        Transition::AtoA => Some((State::A, State::A)),
        Transition::AtoB => Some((State::A, State::B)),
        Transition::BtoB => Some((State::B, State::B)),
        Transition::BtoC => Some((State::B, State::C)),
        Transition::BtoD => Some((State::B, State::D)),
        Transition::BtoE => Some((State::B, State::E)),
        Transition::CtoC => Some((State::C, State::C)),
        Transition::CtoE => Some((State::C, State::E)),
        Transition::DtoD => Some((State::D, State::D)),
        Transition::DtoE => Some((State::D, State::E)),
        Transition::EtoE => Some((State::E, State::E)),
        Transition::EtoA => Some((State::E, State::A)),
    }
}

/// Executable transition table. Total over the non-sentinel transition
/// identifiers: every declared edge resolves, and only the sentinel has no
/// entry.
pub fn lookup(t: Transition) -> (r: Option<(State, State)>)
    ensures
        r == spec_lookup(t),
{
    match t {
        Transition::NoTransition => None,
        Transition::AtoA => Some((State::A, State::A)),
        Transition::AtoB => Some((State::A, State::B)),
        Transition::BtoB => Some((State::B, State::B)),
        Transition::BtoC => Some((State::B, State::C)),
        Transition::BtoD => Some((State::B, State::D)),
        Transition::BtoE => Some((State::B, State::E)),
        Transition::CtoC => Some((State::C, State::C)),
        Transition::CtoE => Some((State::C, State::E)),
        Transition::DtoD => Some((State::D, State::D)),
        Transition::DtoE => Some((State::D, State::E)),
        Transition::EtoE => Some((State::E, State::E)),
        Transition::EtoA => Some((State::E, State::A)),
    }
}

/// Whether `t` is a declared edge whose required origin is `s`, i.e. the
/// guard check passes for `t` when the machine is in `s`.
pub open spec fn legal_from(s: State, t: Transition) -> bool {
    spec_lookup(t) matches Some(entry) && entry.0 == s
}

/// The edges a caller may legally request from state `s`, derived from the
/// same table the machine checks, so that a driver offering exactly these
/// never requests an edge the machine would reject: every listed
/// transition passes the guard in `s`, and every transition that passes
/// the guard in `s` is listed.
pub fn legal_transitions(s: State) -> (r: Vec<Transition>)
    ensures
        forall|i: int| 0 <= i < r@.len() ==> legal_from(s, #[trigger] r@[i]),
        forall|t: Transition| legal_from(s, t) ==> r@.contains(t),
{
    let mut r: Vec<Transition> = Vec::new();
    match s {
        State::A => {
            r.push(Transition::AtoA);
            r.push(Transition::AtoB);
        },
        State::B => {
            r.push(Transition::BtoB);
            r.push(Transition::BtoC);
            r.push(Transition::BtoD);
            r.push(Transition::BtoE);
        },
        State::C => {
            r.push(Transition::CtoC);
            r.push(Transition::CtoE);
        },
        State::D => {
            r.push(Transition::DtoD);
            r.push(Transition::DtoE);
        },
        State::E => {
            r.push(Transition::EtoE);
            r.push(Transition::EtoA);
        },
    }
    proof {
        assert(forall|t: Transition| legal_from(s, t) ==> r@.contains(t)) by {
            assert(r@.contains(r@[0]));
            assert(r@.contains(r@[1]));
            if r@.len() == 4 {
                assert(r@.contains(r@[2]));
                assert(r@.contains(r@[3]));
            }
        }
    }
    r
}

/// `ts` is a chain of legal edges leading from `s` to `goal`: each edge's
/// required origin is the state reached so far, and the state after the
/// last edge is `goal`.
pub open spec fn path_leads(s: State, ts: Seq<Transition>, goal: State) -> bool
    decreases ts.len(),
{
    if ts.len() == 0 {
        s == goal
    } else {
        match spec_lookup(ts[0]) {
            Some(entry) => entry.0 == s && path_leads(entry.1, ts.drop_first(), goal),
            None => false,
        }
    }
}

/// `goal` can be reached from `s` by some finite chain of legal edges.
pub open spec fn reaches(s: State, goal: State) -> bool {
    exists|ts: Seq<Transition>| path_leads(s, ts, goal)
}

/// One legal edge prepended to a chain is a chain.
proof fn lemma_path_cons(s: State, t: Transition, d: State, ts: Seq<Transition>, goal: State)
    requires
        spec_lookup(t) matches Some(entry) && entry.0 == s && entry.1 == d,
        path_leads(d, ts, goal),
    ensures
        path_leads(s, seq![t] + ts, goal),
{
    let full = seq![t] + ts;
    assert(full[0] == t);
    assert(full.drop_first() =~= ts);
}

/// Chains of legal edges compose end to end.
proof fn lemma_path_concat(
    s: State,
    ts1: Seq<Transition>,
    mid: State,
    ts2: Seq<Transition>,
    goal: State,
)
    requires
        path_leads(s, ts1, mid),
        path_leads(mid, ts2, goal),
    ensures
        path_leads(s, ts1 + ts2, goal),
    decreases ts1.len(),
{
    if ts1.len() == 0 {
        assert(ts1 + ts2 =~= ts2);
    } else {
        match spec_lookup(ts1[0]) {
            Some(entry) => {
                lemma_path_concat(entry.1, ts1.drop_first(), mid, ts2, goal);
                assert((ts1 + ts2)[0] == ts1[0]);
                assert((ts1 + ts2).drop_first() =~= ts1.drop_first() + ts2);
            },
            None => {
                assert(false);
            },
        }
    }
}

/// A state reaches itself by the empty chain.
proof fn lemma_reaches_refl(s: State)
    ensures
        reaches(s, s),
{
    assert(path_leads(s, Seq::<Transition>::empty(), s));
}

/// A declared edge is a one-step chain from its origin to its resulting
/// state.
proof fn lemma_reaches_edge(t: Transition, s: State, d: State)
    requires
        spec_lookup(t) == Some((s, d)),
    ensures
        reaches(s, d),
{
    assert(path_leads(d, Seq::<Transition>::empty(), d));
    lemma_path_cons(s, t, d, Seq::<Transition>::empty(), d);
}

/// Reachability composes through an intermediate state.
proof fn lemma_reaches_trans(s: State, mid: State, goal: State)
    requires
        reaches(s, mid),
        reaches(mid, goal),
    ensures
        reaches(s, goal),
{
    let ts1 = choose|ts: Seq<Transition>| path_leads(s, ts, mid);
    let ts2 = choose|ts: Seq<Transition>| path_leads(mid, ts, goal);
    lemma_path_concat(s, ts1, mid, ts2, goal);
}

/// Every state reaches `E`: each non-`E` state has a declared edge into
/// `E`, except `A`, which first steps to `B`.
proof fn lemma_reaches_e(s: State)
    ensures
        reaches(s, State::E),
{
    match s {
        State::A => {
            lemma_reaches_edge(Transition::AtoB, State::A, State::B);
            lemma_reaches_edge(Transition::BtoE, State::B, State::E);
            lemma_reaches_trans(State::A, State::B, State::E);
        },
        State::B => {
            lemma_reaches_edge(Transition::BtoE, State::B, State::E);
        },
        State::C => {
            lemma_reaches_edge(Transition::CtoE, State::C, State::E);
        },
        State::D => {
            lemma_reaches_edge(Transition::DtoE, State::D, State::E);
        },
        State::E => {
            lemma_reaches_refl(State::E);
        },
    }
}

/// `A` reaches every state: directly to `B`, and through `B` to the rest.
proof fn lemma_a_reaches(goal: State)
    ensures
        reaches(State::A, goal),
{
    match goal {
        State::A => {
            lemma_reaches_refl(State::A);
        },
        State::B => {
            lemma_reaches_edge(Transition::AtoB, State::A, State::B);
        },
        State::C => {
            lemma_reaches_edge(Transition::AtoB, State::A, State::B);
            lemma_reaches_edge(Transition::BtoC, State::B, State::C);
            lemma_reaches_trans(State::A, State::B, State::C);
        },
        State::D => {
            lemma_reaches_edge(Transition::AtoB, State::A, State::B);
            lemma_reaches_edge(Transition::BtoD, State::B, State::D);
            lemma_reaches_trans(State::A, State::B, State::D);
        },
        State::E => {
            lemma_reaches_e(State::A);
        },
    }
}

/// Law: the transition graph is strongly connected. From any state a
/// finite chain of legal edges reaches every state: every state reaches
/// `E`, `E` re-enters `A` by its only back-edge, and `A` fans out to all
/// states.
pub proof fn lemma_reaches_all(s: State, goal: State)
    ensures
        reaches(s, goal),
{
    lemma_reaches_e(s);
    lemma_reaches_edge(Transition::EtoA, State::E, State::A);
    lemma_reaches_trans(s, State::E, State::A);
    lemma_a_reaches(goal);
    lemma_reaches_trans(s, State::A, goal);
}

} // verus!
