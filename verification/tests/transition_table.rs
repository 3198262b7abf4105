use guarded_fsm::transition_table::legal_transitions;
use guarded_fsm::transition_table::lookup;
use guarded_fsm::transition_table::State;
use guarded_fsm::transition_table::Transition;

#[test]
fn table_declares_exactly_the_twelve_edges() {
    assert_eq!(lookup(Transition::NoTransition), None);
    assert_eq!(lookup(Transition::AtoA), Some((State::A, State::A)));
    assert_eq!(lookup(Transition::AtoB), Some((State::A, State::B)));
    assert_eq!(lookup(Transition::BtoB), Some((State::B, State::B)));
    assert_eq!(lookup(Transition::BtoC), Some((State::B, State::C)));
    assert_eq!(lookup(Transition::BtoD), Some((State::B, State::D)));
    assert_eq!(lookup(Transition::BtoE), Some((State::B, State::E)));
    assert_eq!(lookup(Transition::CtoC), Some((State::C, State::C)));
    assert_eq!(lookup(Transition::CtoE), Some((State::C, State::E)));
    assert_eq!(lookup(Transition::DtoD), Some((State::D, State::D)));
    assert_eq!(lookup(Transition::DtoE), Some((State::D, State::E)));
    assert_eq!(lookup(Transition::EtoE), Some((State::E, State::E)));
    assert_eq!(lookup(Transition::EtoA), Some((State::E, State::A)));
}

#[test]
fn legal_transitions_lists_each_state_outgoing_edges() {
    assert_eq!(legal_transitions(State::A), vec![Transition::AtoA, Transition::AtoB]);
    assert_eq!(
        legal_transitions(State::B),
        vec![Transition::BtoB, Transition::BtoC, Transition::BtoD, Transition::BtoE]
    );
    assert_eq!(legal_transitions(State::C), vec![Transition::CtoC, Transition::CtoE]);
    assert_eq!(legal_transitions(State::D), vec![Transition::DtoD, Transition::DtoE]);
    assert_eq!(legal_transitions(State::E), vec![Transition::EtoE, Transition::EtoA]);
}

#[test]
fn legal_transitions_agree_with_the_table() {
    let states = vec![State::A, State::B, State::C, State::D, State::E];
    let edges = vec![
        Transition::AtoA,
        Transition::AtoB,
        Transition::BtoB,
        Transition::BtoC,
        Transition::BtoD,
        Transition::BtoE,
        Transition::CtoC,
        Transition::CtoE,
        Transition::DtoD,
        Transition::DtoE,
        Transition::EtoE,
        Transition::EtoA,
    ];
    for s in states {
        let listed = legal_transitions(s);
        for t in &listed {
            let (origin, _) = lookup(*t).expect("a listed transition is a declared edge");
            assert_eq!(origin, s);
        }
        for t in &edges {
            let (origin, _) = lookup(*t).unwrap();
            assert_eq!(origin == s, listed.contains(t));
        }
        assert!(!listed.contains(&Transition::NoTransition));
    }
}
