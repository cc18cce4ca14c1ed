use morse_msp430::detect::{detect_morse, Detector, Event};
use morse_msp430::morse::FsmState;

fn ticks(n: usize) -> Vec<Event> {
    vec![Event::Tick; n]
}

#[test]
fn short_press_then_long_release_is_e_at_word_end() {
    let mut events = ticks(2);
    events.push(Event::Edge);
    events.extend(ticks(9));
    let mut state = FsmState::Start;
    assert_eq!(detect_morse(&mut state, true, &events), Some((b'E', true)));
    assert_eq!(state, FsmState::Start);
}

#[test]
fn word_gap_fires_on_eighth_tick() {
    let mut d = Detector::new(true);
    let mut state = FsmState::Start;
    assert_eq!(d.step(&mut state, Event::Tick), None);
    assert_eq!(d.step(&mut state, Event::Tick), None);
    assert_eq!(d.step(&mut state, Event::Edge), None);
    assert_eq!(state, FsmState::E);
    assert!(!d.pressed);
    for _ in 0..7 {
        assert_eq!(d.step(&mut state, Event::Tick), None);
    }
    assert_eq!(d.step(&mut state, Event::Tick), Some((b'E', true)));
    assert_eq!(state, FsmState::Start);
}

#[test]
fn letter_gap_ends_letter_without_word_flag() {
    // dot, short gap, dash, then a five-unit gap: "A" ends at the edge.
    let mut events = ticks(1);
    events.push(Event::Edge);
    events.extend(ticks(1));
    events.push(Event::Edge);
    events.extend(ticks(4));
    events.push(Event::Edge);
    events.extend(ticks(5));
    events.push(Event::Edge);
    let mut state = FsmState::Start;
    assert_eq!(detect_morse(&mut state, true, &events), Some((b'A', false)));
    assert_eq!(state, FsmState::Start);
}

#[test]
fn short_gap_is_not_a_symbol() {
    let mut d = Detector::new(false);
    let mut state = FsmState::E;
    for _ in 0..3 {
        d.step(&mut state, Event::Tick);
    }
    assert_eq!(d.step(&mut state, Event::Edge), None);
    assert_eq!(state, FsmState::E);
    assert!(d.pressed);
    assert_eq!(d.ticks, 0);
}

#[test]
fn held_line_counts_as_dash() {
    let mut state = FsmState::Start;
    assert_eq!(detect_morse(&mut state, true, &ticks(8)), Some((0, false)));
    assert_eq!(state, FsmState::T);
}

#[test]
fn over_long_mark_edge_counts_as_dash() {
    let mut d = Detector { pressed: true, ticks: 9 };
    let mut state = FsmState::Start;
    assert_eq!(d.step(&mut state, Event::Edge), None);
    assert_eq!(state, FsmState::T);
}

#[test]
fn idle_gap_at_start_emits_nothing() {
    let mut state = FsmState::Start;
    assert_eq!(detect_morse(&mut state, false, &ticks(8)), Some((0, true)));
    assert_eq!(state, FsmState::Start);
}

#[test]
fn events_run_out() {
    let mut state = FsmState::Start;
    let events = vec![Event::Tick, Event::Edge, Event::Tick];
    assert_eq!(detect_morse(&mut state, true, &events), None);
    assert_eq!(state, FsmState::E);
}
