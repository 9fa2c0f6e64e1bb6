use autodeck::automata::Automata;
use autodeck::Automation;
use autodeck::Error;
use autodeck::Event;

fn automaton(name: &str) -> Automata {
    Automata {
        state: name.to_string(),
        on_init: None,
        states: vec![(
            name.to_string(),
            autodeck::State {
                display: None,
                on_press: None,
                on_poll: None,
            },
        )],
    }
}

fn automation(n: usize) -> Automation {
    Automation {
        automata: (0..n).map(|i| automaton(&format!("s{}", i))).collect(),
    }
}

#[test]
fn scenario_too_many_automata_refused() {
    // Five automata against a device reporting four controls: the engine must
    // refuse to start, before any automaton is initialised.
    let a = automation(5);
    assert_eq!(a.check_capacity(4).err(), Some(Error::TooManyAutomata));
}

#[test]
fn capacity_boundary_is_inclusive() {
    let a = automation(5);
    assert!(a.check_capacity(5).is_ok());
    assert!(a.check_capacity(6).is_ok());
    assert!(automation(0).check_capacity(0).is_ok());
}

#[test]
fn round_plan_presses_in_ascending_order() {
    let a = automation(3);
    let buttons = Some(vec![1u8, 0, 2]);
    let plan = a.round_plan(&buttons, false);
    assert_eq!(plan, vec![(0, Event::Press), (2, Event::Press)]);
}

#[test]
fn round_plan_presses_then_polls() {
    let a = automation(3);
    let buttons = Some(vec![0u8, 1, 0]);
    let plan = a.round_plan(&buttons, true);
    assert_eq!(
        plan,
        vec![
            (1, Event::Press),
            (0, Event::Poll),
            (1, Event::Poll),
            (2, Event::Poll),
        ]
    );
}

#[test]
fn round_plan_empty_round() {
    let a = automation(3);
    let plan = a.round_plan(&None, false);
    assert!(plan.is_empty());
}

#[test]
fn round_plan_poll_only_round() {
    let a = automation(2);
    let plan = a.round_plan(&None, true);
    assert_eq!(plan, vec![(0, Event::Poll), (1, Event::Poll)]);
}

#[test]
fn round_plan_ignores_bits_past_the_automata() {
    let a = automation(2);
    let buttons = Some(vec![0u8, 0, 1, 1]);
    let plan = a.round_plan(&buttons, false);
    assert!(plan.is_empty());
}
