//! Morse code over a hand key: timing classification of key presses, a decoding
//! automaton from symbols to ASCII, the encoding table for playback, and the
//! byte queue shared between the foreground loop and the serial interrupt.

pub mod buffer;
pub mod detect;
pub mod mode;
pub mod morse;
pub mod playback;
