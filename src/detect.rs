use vstd::prelude::*;
use crate::morse::{classify, determine_morse_code, transition, FsmState, Morse, DASH_MAX_TICKS};

verus! {

/// What the input line reports while a session waits.
#[derive(Clone, Copy, PartialEq, Eq, Structural, Debug)]
pub enum Event {
    /// One timer unit passed with no edge.
    Tick,
    /// The line changed level.
    Edge,
}

/// The timing side of one decoding session: whether the line is pressed, and
/// how many timer units passed since its last change.
#[derive(Clone, Copy, PartialEq, Eq, Structural, Debug)]
pub struct Detector {
    pub pressed: bool,
    pub ticks: u16,
}

/// The symbol that an edge hands to the decoder, if any. A mark gives a dot or
/// a dash, an over-long mark counting as a dash. A gap of dash length or more
/// gives a space, and a shorter gap, between the symbols of one letter, gives
/// nothing.
pub open spec fn edge_symbol(pressed: bool, ticks: int) -> Option<Morse> {
    if pressed {
        Option::Some(if classify(ticks) == Morse::Dot { Morse::Dot } else { Morse::Dash })
    } else if classify(ticks) == Morse::Dot {
        Option::None
    } else {
        Option::Some(Morse::Space)
    }
}

/// One step of a session: the detector and decoder state after `ev`, and what
/// the session returns there (`None` while it goes on). An edge that completes
/// a byte ends the session. A tick that finds the line unchanged for more than
/// a dash ends it too: a held line counts as a dash, a released one as a word
/// gap.
pub open spec fn step_spec(d: Detector, s: FsmState, ev: Event) -> (Detector, FsmState, Option<(u8, bool)>) {
    match ev {
        Event::Edge => match edge_symbol(d.pressed, d.ticks as int) {
            Option::None => (Detector { pressed: !d.pressed, ticks: 0 }, s, Option::None),
            Option::Some(m) => {
                let (n, b) = transition(s, m);
                if b != 0 {
                    (Detector { pressed: d.pressed, ticks: 0 }, n, Option::Some((b, false)))
                } else {
                    (Detector { pressed: !d.pressed, ticks: 0 }, n, Option::None)
                }
            },
        },
        Event::Tick => if d.ticks >= DASH_MAX_TICKS {
            let m = if d.pressed { Morse::Dash } else { Morse::Space };
            let (n, b) = transition(s, m);
            (Detector { pressed: d.pressed, ticks: 0 }, n, Option::Some((b, !d.pressed)))
        } else {
            (Detector { pressed: d.pressed, ticks: (d.ticks + 1) as u16 }, s, Option::None)
        },
    }
}

/// A session run over `evs` from detector `d` and decoder state `s`: the
/// decoder state where it stops, and what it returns (`None` if the events run
/// out first).
pub open spec fn session(d: Detector, s: FsmState, evs: Seq<Event>) -> (FsmState, Option<(u8, bool)>)
    decreases evs.len(),
{
    if evs.len() == 0 {
        (s, Option::None)
    } else {
        let (d2, s2, out) = step_spec(d, s, evs[0]);
        if out is Some {
            (s2, out)
        } else {
            session(d2, s2, evs.drop_first())
        }
    }
}

impl Detector {
    /// A session that starts with the line pressed or released.
    pub fn new(pressed: bool) -> (r: Self)
        ensures
            r == (Detector { pressed, ticks: 0 }),
    {
        Detector { pressed, ticks: 0 }
    }

    /// Handles one event, feeding the decoder `state` as the event asks.
    pub fn step(&mut self, state: &mut FsmState, event: Event) -> (r: Option<(u8, bool)>)
        ensures
            (*final(self), *final(state), r) == step_spec(*old(self), *old(state), event),
    {
        match event {
            Event::Edge => {
                let m = determine_morse_code(self.ticks);
                self.ticks = 0;
                let fed = if self.pressed {
                    match m {
                        Morse::Dot => Some(Morse::Dot),
                        Morse::Dash | Morse::Space => Some(Morse::Dash),
                    }
                } else {
                    match m {
                        Morse::Dash | Morse::Space => Some(Morse::Space),
                        Morse::Dot => None,
                    }
                };
                let mut c: u8 = 0;
                if let Some(sym) = fed {
                    let (n, b) = state.next(sym);
                    *state = n;
                    c = b;
                }
                if c != 0 {
                    return Some((c, false));
                }
                self.pressed = !self.pressed;
                None
            },
            Event::Tick => {
                if self.ticks >= DASH_MAX_TICKS {
                    self.ticks = 0;
                    let m = if self.pressed { Morse::Dash } else { Morse::Space };
                    let (n, b) = state.next(m);
                    *state = n;
                    Some((b, !self.pressed))
                } else {
                    self.ticks = self.ticks + 1;
                    None
                }
            },
        }
    }
}

/// Runs one decoding session over recorded line events, starting with the line
/// `pressed` or released. Returns the byte and the word-gap flag at the event
/// where the session ends, or `None` if the events run out first.
pub fn detect_morse(state: &mut FsmState, pressed: bool, events: &Vec<Event>) -> (r: Option<(u8, bool)>)
    ensures
        (*final(state), r) == session(Detector { pressed, ticks: 0 }, *old(state), events@),
{
    let mut d = Detector::new(pressed);
    let mut i: usize = 0;
    assert(events@.subrange(0, events@.len() as int) =~= events@);
    while i < events.len()
        invariant
            i <= events@.len(),
            session(Detector { pressed, ticks: 0 }, *old(state), events@)
                == session(d, *state, events@.subrange(i as int, events@.len() as int)),
        decreases events@.len() - i,
    {
        let ghost rest = events@.subrange(i as int, events@.len() as int);
        let out = d.step(state, events[i]);
        if out.is_some() {
            return out;
        }
        i = i + 1;
        assert(rest.drop_first() =~= events@.subrange(i as int, events@.len() as int));
    }
    assert(events@.subrange(i as int, events@.len() as int).len() == 0);
    None
}

} // verus!
