use morse_msp430::morse::{byte_to_morse, determine_morse_code, FsmState, Morse};

const STATES: [FsmState; 30] = [
    FsmState::Start,
    FsmState::E,
    FsmState::T,
    FsmState::N,
    FsmState::I,
    FsmState::A,
    FsmState::M,
    FsmState::D,
    FsmState::G,
    FsmState::K,
    FsmState::O,
    FsmState::R,
    FsmState::S,
    FsmState::U,
    FsmState::W,
    FsmState::B,
    FsmState::C,
    FsmState::F,
    FsmState::H,
    FsmState::J,
    FsmState::L,
    FsmState::P,
    FsmState::Q,
    FsmState::V,
    FsmState::X,
    FsmState::Y,
    FsmState::Z,
    FsmState::LLLO,
    FsmState::LLLL,
    FsmState::OOLL,
];

fn decode_all(syms: &[Morse]) -> (FsmState, Vec<u8>) {
    let mut s = FsmState::Start;
    let mut out = Vec::new();
    for &m in syms {
        let (n, b) = s.next(m);
        s = n;
        if b != 0 {
            out.push(b);
        }
    }
    (s, out)
}

#[test]
fn classifier_boundaries() {
    assert_eq!(determine_morse_code(0), Morse::Dot);
    assert_eq!(determine_morse_code(3), Morse::Dot);
    assert_eq!(determine_morse_code(4), Morse::Dash);
    assert_eq!(determine_morse_code(7), Morse::Dash);
    assert_eq!(determine_morse_code(8), Morse::Space);
    assert_eq!(determine_morse_code(u16::MAX), Morse::Space);
}

#[test]
fn encode_table_samples() {
    let (dot, dash, space) = (Morse::Dot, Morse::Dash, Morse::Space);
    assert_eq!(byte_to_morse(b'A'), vec![dot, dash]);
    assert_eq!(byte_to_morse(b'a'), vec![dot, dash]);
    assert_eq!(byte_to_morse(b'S'), vec![dot, dot, dot]);
    assert_eq!(byte_to_morse(b'q'), vec![dash, dash, dot, dash]);
    assert_eq!(byte_to_morse(b'0'), vec![dash, dash, dash, dash, dash]);
    assert_eq!(byte_to_morse(b'7'), vec![dash, dash, dot, dot, dot]);
    for c in [b' ', b'\t', b'\r', b'\n'] {
        assert_eq!(byte_to_morse(c), vec![space]);
    }
    for c in [b'#', b'.', 0u8, 255u8, b'@'] {
        assert!(byte_to_morse(c).is_empty());
    }
}

#[test]
fn round_trip_letters_and_digits() {
    let bytes = (b'a'..=b'z').chain(b'A'..=b'Z').chain(b'0'..=b'9');
    for c in bytes {
        let mut syms = byte_to_morse(c);
        syms.push(Morse::Space);
        let (s, out) = decode_all(&syms);
        assert_eq!(s, FsmState::Start, "byte {}", c);
        assert_eq!(out, vec![c.to_ascii_uppercase()], "byte {}", c);
    }
}

#[test]
fn every_transition_is_defined() {
    for &s in STATES.iter() {
        for m in [Morse::Dot, Morse::Dash, Morse::Space] {
            let (_, b) = s.next(m);
            assert!(b == 0 || b.is_ascii_uppercase() || b.is_ascii_digit());
            if m == Morse::Space {
                assert_eq!(b != 0, s != FsmState::Start);
                assert_eq!(s.next(m).0, FsmState::Start);
            }
        }
    }
    assert_eq!(FsmState::Start.next(Morse::Space), (FsmState::Start, 0));
}

#[test]
fn scenario_dot_dash_space_is_a() {
    let (s1, b1) = FsmState::Start.next(Morse::Dot);
    assert_eq!((s1, b1), (FsmState::E, 0));
    let (s2, b2) = s1.next(Morse::Dash);
    assert_eq!((s2, b2), (FsmState::A, 0));
    let (s3, b3) = s2.next(Morse::Space);
    assert_eq!((s3, b3), (FsmState::Start, 0x41));
}

#[test]
fn letter_then_new_letter_without_gap() {
    // "-.-." is C, and a further dot starts a new letter.
    let (s, out) = decode_all(&[Morse::Dash, Morse::Dot, Morse::Dash, Morse::Dot, Morse::Dot]);
    assert_eq!(out, vec![b'C']);
    assert_eq!(s, FsmState::E);
}

#[test]
fn digit_prefix_broken_by_gap() {
    assert_eq!(FsmState::LLLO.next(Morse::Space), (FsmState::Start, b'O'));
    assert_eq!(FsmState::LLLL.next(Morse::Space), (FsmState::Start, b'O'));
    assert_eq!(FsmState::OOLL.next(Morse::Space), (FsmState::Start, b'U'));
    assert_eq!(FsmState::OOLL.next(Morse::Dot), (FsmState::N, b'U'));
}
