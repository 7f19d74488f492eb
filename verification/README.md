# formant_synth

A small formant speech synthesizer (pulse train and aspiration noise through
resonators, written to a WAV file and played back).

- `src/` is the verified library: the xorshift32 noise generator that drives
  the aspiration noise, with its state transitions and laws proved by Verus.
- `app/` is the program: the floating-point filters, vowel tables, level
  conversions, normalisation, playback (rodio) and WAV output (hound).
- `tests/` runs the library on concrete seeds.
