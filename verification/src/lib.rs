//! Integer core of a formant speech synthesizer: the xorshift noise source
//! that drives aspiration noise, with its state machine verified.

pub mod noise;
