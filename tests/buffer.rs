use morse_msp430::buffer::{Buffer, SIZE};
use morse_msp430::mode::{store_decoded, switch_mode, transmit_next};

#[test]
fn push_then_pop_keeps_order() {
    let mut b = Buffer::new();
    assert!(b.is_empty());
    assert_eq!(b.push(b'H'), Ok(()));
    assert_eq!(b.push(b'I'), Ok(()));
    assert!(!b.is_empty());
    assert_eq!(b.pop(), Ok(b'H'));
    assert_eq!(b.pop(), Ok(b'I'));
    assert!(b.is_empty());
}

#[test]
fn pop_from_empty_fails() {
    let mut b = Buffer::new();
    assert_eq!(b.pop(), Err(()));
    assert!(b.is_empty());
    assert_eq!(b.push(7), Ok(()));
    assert_eq!(b.pop(), Ok(7));
    assert_eq!(b.pop(), Err(()));
}

#[test]
fn holds_one_less_than_its_slots() {
    let mut b = Buffer::new();
    for i in 0..SIZE - 1 {
        assert_eq!(b.push(i as u8), Ok(()));
    }
    assert_eq!(b.push(200), Err(()));
    for i in 0..SIZE - 1 {
        assert_eq!(b.pop(), Ok(i as u8));
    }
    assert_eq!(b.pop(), Err(()));
}

#[test]
fn order_kept_across_wraparound() {
    let mut b = Buffer::new();
    let mut next_in: u32 = 0;
    let mut next_out: u32 = 0;
    for round in 0..10 {
        for _ in 0..(50 + round) {
            assert_eq!(b.push((next_in % 251) as u8), Ok(()));
            next_in += 1;
        }
        for _ in 0..(45 + round) {
            assert_eq!(b.pop(), Ok((next_out % 251) as u8));
            next_out += 1;
        }
        if next_in - next_out > 60 {
            while next_out < next_in {
                assert_eq!(b.pop(), Ok((next_out % 251) as u8));
                next_out += 1;
            }
        }
    }
    while next_out < next_in {
        assert_eq!(b.pop(), Ok((next_out % 251) as u8));
        next_out += 1;
    }
    assert!(b.is_empty());
}

#[test]
fn clear_empties() {
    let mut b = Buffer::new();
    b.push(1).unwrap();
    b.push(2).unwrap();
    b.clear();
    assert!(b.is_empty());
    assert_eq!(b.pop(), Err(()));
    b.push(3).unwrap();
    assert_eq!(b.pop(), Ok(3));
}

#[test]
fn switch_mode_flips_and_clears() {
    let mut b = Buffer::new();
    b.push(b'X').unwrap();
    assert!(!switch_mode(true, &mut b));
    assert!(b.is_empty());
    b.push(b'Y').unwrap();
    assert!(switch_mode(false, &mut b));
    assert!(b.is_empty());
}

#[test]
fn store_decoded_adds_space_at_word_end() {
    let mut b = Buffer::new();
    assert!(store_decoded(&mut b, b'E', true));
    assert!(store_decoded(&mut b, b'T', false));
    assert_eq!(b.pop(), Ok(b'E'));
    assert_eq!(b.pop(), Ok(b' '));
    assert_eq!(b.pop(), Ok(b'T'));
    assert_eq!(b.pop(), Err(()));
}

#[test]
fn store_decoded_drops_newest_on_overrun() {
    let mut b = Buffer::new();
    for _ in 0..SIZE - 2 {
        b.push(b'A').unwrap();
    }
    assert!(!store_decoded(&mut b, b'B', true));
    for _ in 0..SIZE - 2 {
        assert_eq!(b.pop(), Ok(b'A'));
    }
    assert_eq!(b.pop(), Ok(b'B'));
    assert_eq!(b.pop(), Err(()));
}

#[test]
fn transmit_next_reports_empty() {
    let mut b = Buffer::new();
    assert_eq!(transmit_next(&mut b), (None, true));
    b.push(b'O').unwrap();
    b.push(b'K').unwrap();
    assert_eq!(transmit_next(&mut b), (Some(b'O'), false));
    assert_eq!(transmit_next(&mut b), (Some(b'K'), true));
    assert_eq!(transmit_next(&mut b), (None, true));
}
