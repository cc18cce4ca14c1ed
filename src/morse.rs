use vstd::prelude::*;

verus! {

/// A line symbol of the Morse code.
#[derive(Clone, Copy, PartialEq, Eq, Structural, Debug)]
pub enum Morse {
    Dot,
    Dash,
    Space,
}

/// Largest number of ticks that a mark may last and still count as a dot.
pub const DOT_MAX_TICKS: u16 = 3;

/// Largest number of ticks that an interval may last and still count as a dash.
pub const DASH_MAX_TICKS: u16 = 7;

/// The symbol that an interval of `ticks` timer units stands for.
pub open spec fn classify(ticks: int) -> Morse {
    if ticks <= DOT_MAX_TICKS {
        Morse::Dot
    } else if ticks <= DASH_MAX_TICKS {
        Morse::Dash
    } else {
        Morse::Space
    }
}

/// Classifies an interval measured in timer units.
pub fn determine_morse_code(diff: u16) -> (r: Morse)
    ensures
        r == classify(diff as int),
{
    if diff <= DOT_MAX_TICKS {
        Morse::Dot
    } else if diff <= DASH_MAX_TICKS {
        Morse::Dash
    } else {
        Morse::Space
    }
}

/// A node of the decoding automaton: the part of a letter or digit read so far.
///
/// Each letter state stands for the Morse prefix of that letter. `LLLO`, `LLLL`
/// and `OOLL` stand for `---.`, `----` and `..--`, prefixes that no letter has
/// but that a digit continues.
#[derive(Clone, Copy, PartialEq, Eq, Structural, Debug)]
pub enum FsmState {
    Start,
    E,
    T,
    N,
    I,
    A,
    M,
    D,
    G,
    K,
    O,
    R,
    S,
    U,
    W,
    B,
    C,
    F,
    H,
    J,
    L,
    P,
    Q,
    V,
    X,
    Y,
    Z,
    LLLO,
    LLLL,
    OOLL,
}

/// The transition table: the state that follows `s` on symbol `m`, and the byte
/// completed by that step (0 when none is).
///
/// A dot or dash that no letter or digit continues completes the letter read
/// so far and starts the next one. A gap completes the pending letter and
/// returns to `Start`; at a digit prefix that letter is the longest one the
/// prefix begins with (`---.` and `----` give `O`, `..--` gives `U`).
pub open spec fn transition(s: FsmState, m: Morse) -> (FsmState, u8) {
    match m {
        Morse::Dot => match s {
            FsmState::Start => (FsmState::E, 0),
            FsmState::E => (FsmState::I, 0),
            FsmState::T => (FsmState::N, 0),
            FsmState::N => (FsmState::D, 0),
            FsmState::I => (FsmState::S, 0),
            FsmState::A => (FsmState::R, 0),
            FsmState::M => (FsmState::G, 0),
            FsmState::D => (FsmState::B, 0),
            FsmState::G => (FsmState::Z, 0),
            FsmState::K => (FsmState::C, 0),
            FsmState::O => (FsmState::LLLO, 0),
            FsmState::R => (FsmState::L, 0),
            FsmState::S => (FsmState::H, 0),
            FsmState::U => (FsmState::F, 0),
            FsmState::W => (FsmState::P, 0),
            FsmState::B => (FsmState::Start, '6' as u8),
            FsmState::C => (FsmState::E, 'C' as u8),
            FsmState::F => (FsmState::E, 'F' as u8),
            FsmState::H => (FsmState::Start, '5' as u8),
            FsmState::J => (FsmState::E, 'J' as u8),
            FsmState::L => (FsmState::E, 'L' as u8),
            FsmState::P => (FsmState::E, 'P' as u8),
            FsmState::Q => (FsmState::E, 'Q' as u8),
            FsmState::V => (FsmState::E, 'V' as u8),
            FsmState::X => (FsmState::E, 'X' as u8),
            FsmState::Y => (FsmState::E, 'Y' as u8),
            FsmState::Z => (FsmState::Start, '7' as u8),
            FsmState::LLLO => (FsmState::Start, '8' as u8),
            FsmState::LLLL => (FsmState::Start, '9' as u8),
            FsmState::OOLL => (FsmState::N, 'U' as u8),
        },
        Morse::Dash => match s {
            FsmState::Start => (FsmState::T, 0),
            FsmState::E => (FsmState::A, 0),
            FsmState::T => (FsmState::M, 0),
            FsmState::N => (FsmState::K, 0),
            FsmState::I => (FsmState::U, 0),
            FsmState::A => (FsmState::W, 0),
            FsmState::M => (FsmState::O, 0),
            FsmState::D => (FsmState::X, 0),
            FsmState::G => (FsmState::Q, 0),
            FsmState::K => (FsmState::Y, 0),
            FsmState::O => (FsmState::LLLL, 0),
            FsmState::R => (FsmState::T, 'R' as u8),
            FsmState::S => (FsmState::V, 0),
            FsmState::U => (FsmState::OOLL, 0),
            FsmState::W => (FsmState::J, 0),
            FsmState::B => (FsmState::T, 'B' as u8),
            FsmState::C => (FsmState::T, 'C' as u8),
            FsmState::F => (FsmState::T, 'F' as u8),
            FsmState::H => (FsmState::Start, '4' as u8),
            FsmState::J => (FsmState::Start, '1' as u8),
            FsmState::L => (FsmState::T, 'L' as u8),
            FsmState::P => (FsmState::T, 'P' as u8),
            FsmState::Q => (FsmState::T, 'Q' as u8),
            FsmState::V => (FsmState::Start, '3' as u8),
            FsmState::X => (FsmState::T, 'X' as u8),
            FsmState::Y => (FsmState::T, 'Y' as u8),
            FsmState::Z => (FsmState::T, 'Z' as u8),
            FsmState::LLLO => (FsmState::A, 'O' as u8),
            FsmState::LLLL => (FsmState::Start, '0' as u8),
            FsmState::OOLL => (FsmState::Start, '2' as u8),
        },
        Morse::Space => match s {
            FsmState::Start => (FsmState::Start, 0),
            FsmState::E => (FsmState::Start, 'E' as u8),
            FsmState::T => (FsmState::Start, 'T' as u8),
            FsmState::N => (FsmState::Start, 'N' as u8),
            FsmState::I => (FsmState::Start, 'I' as u8),
            FsmState::A => (FsmState::Start, 'A' as u8),
            FsmState::M => (FsmState::Start, 'M' as u8),
            FsmState::D => (FsmState::Start, 'D' as u8),
            FsmState::G => (FsmState::Start, 'G' as u8),
            FsmState::K => (FsmState::Start, 'K' as u8),
            FsmState::O => (FsmState::Start, 'O' as u8),
            FsmState::R => (FsmState::Start, 'R' as u8),
            FsmState::S => (FsmState::Start, 'S' as u8),
            FsmState::U => (FsmState::Start, 'U' as u8),
            FsmState::W => (FsmState::Start, 'W' as u8),
            FsmState::B => (FsmState::Start, 'B' as u8),
            FsmState::C => (FsmState::Start, 'C' as u8),
            FsmState::F => (FsmState::Start, 'F' as u8),
            FsmState::H => (FsmState::Start, 'H' as u8),
            FsmState::J => (FsmState::Start, 'J' as u8),
            FsmState::L => (FsmState::Start, 'L' as u8),
            FsmState::P => (FsmState::Start, 'P' as u8),
            FsmState::Q => (FsmState::Start, 'Q' as u8),
            FsmState::V => (FsmState::Start, 'V' as u8),
            FsmState::X => (FsmState::Start, 'X' as u8),
            FsmState::Y => (FsmState::Start, 'Y' as u8),
            FsmState::Z => (FsmState::Start, 'Z' as u8),
            FsmState::LLLO => (FsmState::Start, 'O' as u8),
            FsmState::LLLL => (FsmState::Start, 'O' as u8),
            FsmState::OOLL => (FsmState::Start, 'U' as u8),
        },
    }
}

impl FsmState {
    /// One step of the decoder.
    pub fn next(self, morse: Morse) -> (r: (Self, u8))
        ensures
            r == transition(self, morse),
    {
        match morse {
            Morse::Dot => match self {
                FsmState::Start => (FsmState::E, 0),
                FsmState::E => (FsmState::I, 0),
                FsmState::T => (FsmState::N, 0),
                FsmState::N => (FsmState::D, 0),
                FsmState::I => (FsmState::S, 0),
                FsmState::A => (FsmState::R, 0),
                FsmState::M => (FsmState::G, 0),
                FsmState::D => (FsmState::B, 0),
                FsmState::G => (FsmState::Z, 0),
                FsmState::K => (FsmState::C, 0),
                FsmState::O => (FsmState::LLLO, 0),
                FsmState::R => (FsmState::L, 0),
                FsmState::S => (FsmState::H, 0),
                FsmState::U => (FsmState::F, 0),
                FsmState::W => (FsmState::P, 0),
                FsmState::B => (FsmState::Start, '6' as u8),
                FsmState::C => (FsmState::E, 'C' as u8),
                FsmState::F => (FsmState::E, 'F' as u8),
                FsmState::H => (FsmState::Start, '5' as u8),
                FsmState::J => (FsmState::E, 'J' as u8),
                FsmState::L => (FsmState::E, 'L' as u8),
                FsmState::P => (FsmState::E, 'P' as u8),
                FsmState::Q => (FsmState::E, 'Q' as u8),
                FsmState::V => (FsmState::E, 'V' as u8),
                FsmState::X => (FsmState::E, 'X' as u8),
                FsmState::Y => (FsmState::E, 'Y' as u8),
                FsmState::Z => (FsmState::Start, '7' as u8),
                FsmState::LLLO => (FsmState::Start, '8' as u8),
                FsmState::LLLL => (FsmState::Start, '9' as u8),
                FsmState::OOLL => (FsmState::N, 'U' as u8),
            },
            Morse::Dash => match self {
                FsmState::Start => (FsmState::T, 0),
                FsmState::E => (FsmState::A, 0),
                FsmState::T => (FsmState::M, 0),
                FsmState::N => (FsmState::K, 0),
                FsmState::I => (FsmState::U, 0),
                FsmState::A => (FsmState::W, 0),
                FsmState::M => (FsmState::O, 0),
                FsmState::D => (FsmState::X, 0),
                FsmState::G => (FsmState::Q, 0),
                FsmState::K => (FsmState::Y, 0),
                FsmState::O => (FsmState::LLLL, 0),
                FsmState::R => (FsmState::T, 'R' as u8),
                FsmState::S => (FsmState::V, 0),
                FsmState::U => (FsmState::OOLL, 0),
                FsmState::W => (FsmState::J, 0),
                FsmState::B => (FsmState::T, 'B' as u8),
                FsmState::C => (FsmState::T, 'C' as u8),
                FsmState::F => (FsmState::T, 'F' as u8),
                FsmState::H => (FsmState::Start, '4' as u8),
                FsmState::J => (FsmState::Start, '1' as u8),
                FsmState::L => (FsmState::T, 'L' as u8),
                FsmState::P => (FsmState::T, 'P' as u8),
                FsmState::Q => (FsmState::T, 'Q' as u8),
                FsmState::V => (FsmState::Start, '3' as u8),
                FsmState::X => (FsmState::T, 'X' as u8),
                FsmState::Y => (FsmState::T, 'Y' as u8),
                FsmState::Z => (FsmState::T, 'Z' as u8),
                FsmState::LLLO => (FsmState::A, 'O' as u8),
                FsmState::LLLL => (FsmState::Start, '0' as u8),
                FsmState::OOLL => (FsmState::Start, '2' as u8),
            },
            Morse::Space => match self {
                FsmState::Start => (FsmState::Start, 0),
                FsmState::E => (FsmState::Start, 'E' as u8),
                FsmState::T => (FsmState::Start, 'T' as u8),
                FsmState::N => (FsmState::Start, 'N' as u8),
                FsmState::I => (FsmState::Start, 'I' as u8),
                FsmState::A => (FsmState::Start, 'A' as u8),
                FsmState::M => (FsmState::Start, 'M' as u8),
                FsmState::D => (FsmState::Start, 'D' as u8),
                FsmState::G => (FsmState::Start, 'G' as u8),
                FsmState::K => (FsmState::Start, 'K' as u8),
                FsmState::O => (FsmState::Start, 'O' as u8),
                FsmState::R => (FsmState::Start, 'R' as u8),
                FsmState::S => (FsmState::Start, 'S' as u8),
                FsmState::U => (FsmState::Start, 'U' as u8),
                FsmState::W => (FsmState::Start, 'W' as u8),
                FsmState::B => (FsmState::Start, 'B' as u8),
                FsmState::C => (FsmState::Start, 'C' as u8),
                FsmState::F => (FsmState::Start, 'F' as u8),
                FsmState::H => (FsmState::Start, 'H' as u8),
                FsmState::J => (FsmState::Start, 'J' as u8),
                FsmState::L => (FsmState::Start, 'L' as u8),
                FsmState::P => (FsmState::Start, 'P' as u8),
                FsmState::Q => (FsmState::Start, 'Q' as u8),
                FsmState::V => (FsmState::Start, 'V' as u8),
                FsmState::X => (FsmState::Start, 'X' as u8),
                FsmState::Y => (FsmState::Start, 'Y' as u8),
                FsmState::Z => (FsmState::Start, 'Z' as u8),
                FsmState::LLLO => (FsmState::Start, 'O' as u8),
                FsmState::LLLL => (FsmState::Start, 'O' as u8),
                FsmState::OOLL => (FsmState::Start, 'U' as u8),
            },
        }
    }
}

/// The International Morse code of byte `c`: letters of either case and digits
/// map to their dots and dashes, the whitespace bytes (space, tab, CR, LF) to a
/// single `Space`, and every other byte to nothing.
pub open spec fn symbols_of(c: u8) -> Seq<Morse> {
    match c as char {
        'A' | 'a' => seq![Morse::Dot, Morse::Dash],
        'B' | 'b' => seq![Morse::Dash, Morse::Dot, Morse::Dot, Morse::Dot],
        'C' | 'c' => seq![Morse::Dash, Morse::Dot, Morse::Dash, Morse::Dot],
        'D' | 'd' => seq![Morse::Dash, Morse::Dot, Morse::Dot],
        'E' | 'e' => seq![Morse::Dot],
        'F' | 'f' => seq![Morse::Dot, Morse::Dot, Morse::Dash, Morse::Dot],
        'G' | 'g' => seq![Morse::Dash, Morse::Dash, Morse::Dot],
        'H' | 'h' => seq![Morse::Dot, Morse::Dot, Morse::Dot, Morse::Dot],
        'I' | 'i' => seq![Morse::Dot, Morse::Dot],
        'J' | 'j' => seq![Morse::Dot, Morse::Dash, Morse::Dash, Morse::Dash],
        'K' | 'k' => seq![Morse::Dash, Morse::Dot, Morse::Dash],
        'L' | 'l' => seq![Morse::Dot, Morse::Dash, Morse::Dot, Morse::Dot],
        'M' | 'm' => seq![Morse::Dash, Morse::Dash],
        'N' | 'n' => seq![Morse::Dash, Morse::Dot],
        'O' | 'o' => seq![Morse::Dash, Morse::Dash, Morse::Dash],
        'P' | 'p' => seq![Morse::Dot, Morse::Dash, Morse::Dash, Morse::Dot],
        'Q' | 'q' => seq![Morse::Dash, Morse::Dash, Morse::Dot, Morse::Dash],
        'R' | 'r' => seq![Morse::Dot, Morse::Dash, Morse::Dot],
        'S' | 's' => seq![Morse::Dot, Morse::Dot, Morse::Dot],
        'T' | 't' => seq![Morse::Dash],
        'U' | 'u' => seq![Morse::Dot, Morse::Dot, Morse::Dash],
        'V' | 'v' => seq![Morse::Dot, Morse::Dot, Morse::Dot, Morse::Dash],
        'W' | 'w' => seq![Morse::Dot, Morse::Dash, Morse::Dash],
        'X' | 'x' => seq![Morse::Dash, Morse::Dot, Morse::Dot, Morse::Dash],
        'Y' | 'y' => seq![Morse::Dash, Morse::Dot, Morse::Dash, Morse::Dash],
        'Z' | 'z' => seq![Morse::Dash, Morse::Dash, Morse::Dot, Morse::Dot],
        '1' => seq![Morse::Dot, Morse::Dash, Morse::Dash, Morse::Dash, Morse::Dash],
        '2' => seq![Morse::Dot, Morse::Dot, Morse::Dash, Morse::Dash, Morse::Dash],
        '3' => seq![Morse::Dot, Morse::Dot, Morse::Dot, Morse::Dash, Morse::Dash],
        '4' => seq![Morse::Dot, Morse::Dot, Morse::Dot, Morse::Dot, Morse::Dash],
        '5' => seq![Morse::Dot, Morse::Dot, Morse::Dot, Morse::Dot, Morse::Dot],
        '6' => seq![Morse::Dash, Morse::Dot, Morse::Dot, Morse::Dot, Morse::Dot],
        '7' => seq![Morse::Dash, Morse::Dash, Morse::Dot, Morse::Dot, Morse::Dot],
        '8' => seq![Morse::Dash, Morse::Dash, Morse::Dash, Morse::Dot, Morse::Dot],
        '9' => seq![Morse::Dash, Morse::Dash, Morse::Dash, Morse::Dash, Morse::Dot],
        '0' => seq![Morse::Dash, Morse::Dash, Morse::Dash, Morse::Dash, Morse::Dash],
        ' ' | '\n' | '\r' | '\t' => seq![Morse::Space],
        _ => seq![],
    }
}

/// The symbols that send byte `c`, in the order they are sent.
pub fn byte_to_morse(c: u8) -> (r: Vec<Morse>)
    ensures
        r@ == symbols_of(c),
{
    match c as char {
        'A' | 'a' => vec![Morse::Dot, Morse::Dash],
        'B' | 'b' => vec![Morse::Dash, Morse::Dot, Morse::Dot, Morse::Dot],
        'C' | 'c' => vec![Morse::Dash, Morse::Dot, Morse::Dash, Morse::Dot],
        'D' | 'd' => vec![Morse::Dash, Morse::Dot, Morse::Dot],
        'E' | 'e' => vec![Morse::Dot],
        'F' | 'f' => vec![Morse::Dot, Morse::Dot, Morse::Dash, Morse::Dot],
        'G' | 'g' => vec![Morse::Dash, Morse::Dash, Morse::Dot],
        'H' | 'h' => vec![Morse::Dot, Morse::Dot, Morse::Dot, Morse::Dot],
        'I' | 'i' => vec![Morse::Dot, Morse::Dot],
        'J' | 'j' => vec![Morse::Dot, Morse::Dash, Morse::Dash, Morse::Dash],
        'K' | 'k' => vec![Morse::Dash, Morse::Dot, Morse::Dash],
        'L' | 'l' => vec![Morse::Dot, Morse::Dash, Morse::Dot, Morse::Dot],
        'M' | 'm' => vec![Morse::Dash, Morse::Dash],
        'N' | 'n' => vec![Morse::Dash, Morse::Dot],
        'O' | 'o' => vec![Morse::Dash, Morse::Dash, Morse::Dash],
        'P' | 'p' => vec![Morse::Dot, Morse::Dash, Morse::Dash, Morse::Dot],
        'Q' | 'q' => vec![Morse::Dash, Morse::Dash, Morse::Dot, Morse::Dash],
        'R' | 'r' => vec![Morse::Dot, Morse::Dash, Morse::Dot],
        'S' | 's' => vec![Morse::Dot, Morse::Dot, Morse::Dot],
        'T' | 't' => vec![Morse::Dash],
        'U' | 'u' => vec![Morse::Dot, Morse::Dot, Morse::Dash],
        'V' | 'v' => vec![Morse::Dot, Morse::Dot, Morse::Dot, Morse::Dash],
        'W' | 'w' => vec![Morse::Dot, Morse::Dash, Morse::Dash],
        'X' | 'x' => vec![Morse::Dash, Morse::Dot, Morse::Dot, Morse::Dash],
        'Y' | 'y' => vec![Morse::Dash, Morse::Dot, Morse::Dash, Morse::Dash],
        'Z' | 'z' => vec![Morse::Dash, Morse::Dash, Morse::Dot, Morse::Dot],
        '1' => vec![Morse::Dot, Morse::Dash, Morse::Dash, Morse::Dash, Morse::Dash],
        '2' => vec![Morse::Dot, Morse::Dot, Morse::Dash, Morse::Dash, Morse::Dash],
        '3' => vec![Morse::Dot, Morse::Dot, Morse::Dot, Morse::Dash, Morse::Dash],
        '4' => vec![Morse::Dot, Morse::Dot, Morse::Dot, Morse::Dot, Morse::Dash],
        '5' => vec![Morse::Dot, Morse::Dot, Morse::Dot, Morse::Dot, Morse::Dot],
        '6' => vec![Morse::Dash, Morse::Dot, Morse::Dot, Morse::Dot, Morse::Dot],
        '7' => vec![Morse::Dash, Morse::Dash, Morse::Dot, Morse::Dot, Morse::Dot],
        '8' => vec![Morse::Dash, Morse::Dash, Morse::Dash, Morse::Dot, Morse::Dot],
        '9' => vec![Morse::Dash, Morse::Dash, Morse::Dash, Morse::Dash, Morse::Dot],
        '0' => vec![Morse::Dash, Morse::Dash, Morse::Dash, Morse::Dash, Morse::Dash],
        ' ' | '\n' | '\r' | '\t' => vec![Morse::Space],
        _ => vec![],
    }
}

/// The decoder run over `syms` from state `s`: the state it ends in and the
/// bytes it completes on the way, in order.
pub open spec fn decode(s: FsmState, syms: Seq<Morse>) -> (FsmState, Seq<u8>)
    decreases syms.len(),
{
    if syms.len() == 0 {
        (s, Seq::empty())
    } else {
        let (n, b) = transition(s, syms[0]);
        let (f, rest) = decode(n, syms.drop_first());
        (f, if b == 0 { rest } else { seq![b].add(rest) })
    }
}

/// ASCII letters and digits.
pub open spec fn is_alnum(c: u8) -> bool {
    ('a' as u8 <= c <= 'z' as u8) || ('A' as u8 <= c <= 'Z' as u8) || ('0' as u8 <= c <= '9' as u8)
}

/// The upper-case form of an ASCII byte.
pub open spec fn to_upper(c: u8) -> u8 {
    if 'a' as u8 <= c <= 'z' as u8 {
        (c - 32) as u8
    } else {
        c
    }
}

/// Sending a letter or digit and then a gap, and decoding what was sent from
/// `Start`, gives back that byte in upper case and leaves the decoder at `Start`.
pub proof fn lemma_round_trip(c: u8)
    requires
        is_alnum(c),
    ensures
        decode(FsmState::Start, symbols_of(c).push(Morse::Space)) == (FsmState::Start, seq![to_upper(c)]),
{
    reveal_with_fuel(decode, 7);
    let syms = symbols_of(c).push(Morse::Space);
    assert(decode(FsmState::Start, syms) =~= (FsmState::Start, seq![to_upper(c)]));
}

/// The bytes the decoder completes: ASCII upper-case letters and digits.
pub open spec fn is_decoded_byte(b: u8) -> bool {
    ('A' as u8 <= b <= 'Z' as u8) || ('0' as u8 <= b <= '9' as u8)
}

/// Every state has a step on every symbol, and each step completes either
/// nothing (0) or an upper-case letter or digit. A gap completes a byte exactly
/// when a letter is pending, and every gap ends at `Start`.
pub proof fn lemma_transition_total(s: FsmState, m: Morse)
    ensures
        transition(s, m).1 == 0 || is_decoded_byte(transition(s, m).1),
        m == Morse::Space ==> (transition(s, m).1 != 0 <==> s != FsmState::Start),
        transition(FsmState::Start, Morse::Space) == (FsmState::Start, 0u8),
        m == Morse::Space && s != FsmState::Start ==> transition(s, m).0 == FsmState::Start,
{
}

/// The symbols that state `s` has read of the pending letter: a letter state's
/// own code, and for `LLLO`, `LLLL` and `OOLL` the prefixes their names spell
/// (`L` a dash, `O` a dot).
pub open spec fn prefix_of(s: FsmState) -> Seq<Morse> {
    match s {
        FsmState::Start => Seq::empty(),
        FsmState::E => seq![Morse::Dot],
        FsmState::T => seq![Morse::Dash],
        FsmState::N => seq![Morse::Dash, Morse::Dot],
        FsmState::I => seq![Morse::Dot, Morse::Dot],
        FsmState::A => seq![Morse::Dot, Morse::Dash],
        FsmState::M => seq![Morse::Dash, Morse::Dash],
        FsmState::D => seq![Morse::Dash, Morse::Dot, Morse::Dot],
        FsmState::G => seq![Morse::Dash, Morse::Dash, Morse::Dot],
        FsmState::K => seq![Morse::Dash, Morse::Dot, Morse::Dash],
        FsmState::O => seq![Morse::Dash, Morse::Dash, Morse::Dash],
        FsmState::R => seq![Morse::Dot, Morse::Dash, Morse::Dot],
        FsmState::S => seq![Morse::Dot, Morse::Dot, Morse::Dot],
        FsmState::U => seq![Morse::Dot, Morse::Dot, Morse::Dash],
        FsmState::W => seq![Morse::Dot, Morse::Dash, Morse::Dash],
        FsmState::B => seq![Morse::Dash, Morse::Dot, Morse::Dot, Morse::Dot],
        FsmState::C => seq![Morse::Dash, Morse::Dot, Morse::Dash, Morse::Dot],
        FsmState::F => seq![Morse::Dot, Morse::Dot, Morse::Dash, Morse::Dot],
        FsmState::H => seq![Morse::Dot, Morse::Dot, Morse::Dot, Morse::Dot],
        FsmState::J => seq![Morse::Dot, Morse::Dash, Morse::Dash, Morse::Dash],
        FsmState::L => seq![Morse::Dot, Morse::Dash, Morse::Dot, Morse::Dot],
        FsmState::P => seq![Morse::Dot, Morse::Dash, Morse::Dash, Morse::Dot],
        FsmState::Q => seq![Morse::Dash, Morse::Dash, Morse::Dot, Morse::Dash],
        FsmState::V => seq![Morse::Dot, Morse::Dot, Morse::Dot, Morse::Dash],
        FsmState::X => seq![Morse::Dash, Morse::Dot, Morse::Dot, Morse::Dash],
        FsmState::Y => seq![Morse::Dash, Morse::Dot, Morse::Dash, Morse::Dash],
        FsmState::Z => seq![Morse::Dash, Morse::Dash, Morse::Dot, Morse::Dot],
        FsmState::LLLO => seq![Morse::Dash, Morse::Dash, Morse::Dash, Morse::Dot],
        FsmState::LLLL => seq![Morse::Dash, Morse::Dash, Morse::Dash, Morse::Dash],
        FsmState::OOLL => seq![Morse::Dot, Morse::Dot, Morse::Dash, Morse::Dash],
    }
}

/// A dot or dash never loses a symbol: what `s` had read, followed by `m`, is
/// the code of the byte completed (if any) followed by what the next state has
/// read.
pub proof fn lemma_prefix_kept(s: FsmState, m: Morse)
    requires
        m != Morse::Space,
    ensures
        ({
            let (n, b) = transition(s, m);
            prefix_of(s).push(m) == if b == 0 {
                prefix_of(n)
            } else {
                symbols_of(b).add(prefix_of(n))
            }
        }),
{
    let (n, b) = transition(s, m);
    if b == 0 {
        assert(prefix_of(s).push(m) =~= prefix_of(n));
    } else {
        assert(prefix_of(s).push(m) =~= symbols_of(b).add(prefix_of(n)));
    }
}

} // verus!
