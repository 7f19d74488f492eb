use formant_synth::noise::{xorshift32, NoiseGenerator, GAUSSIAN_TERMS};

const SEED_67_DRAWS: [u32; 16] = [
    17066151, 235477839, 2172473887, 1290426240, 3310404909, 1666478391, 1127093838, 3172286749,
    3018562374, 3504626663, 680153931, 1048790394, 2477384684, 1431483590, 2055524675, 4113884085,
];

#[test]
fn xorshift32_known_values() {
    assert_eq!(xorshift32(1), 270369);
    assert_eq!(xorshift32(67), 17066151);
    assert_eq!(xorshift32(0xffff_ffff), 253983);
    assert_eq!(xorshift32(0x8000_0000), 2148024320);
}

#[test]
fn xorshift32_zero_is_fixed() {
    assert_eq!(xorshift32(0), 0);
}

#[test]
fn next_raw_follows_seed() {
    let mut g = NoiseGenerator::new(67);
    for expected in SEED_67_DRAWS.iter() {
        assert_eq!(g.next_raw(), *expected);
    }
}

#[test]
fn zero_seed_stays_silent() {
    let mut g = NoiseGenerator::new(0);
    for _ in 0..100 {
        assert_eq!(g.next_raw(), 0);
    }
    assert_eq!(g.next_raw_batch(8), vec![0u32; 8]);
}

#[test]
fn nonzero_seed_never_reaches_zero() {
    let mut g = NoiseGenerator::new(1);
    for _ in 0..10_000 {
        assert_ne!(g.next_raw(), 0);
    }
}

#[test]
fn batch_equals_single_draws() {
    let mut a = NoiseGenerator::new(67);
    let batch = a.next_raw_batch(GAUSSIAN_TERMS);
    assert_eq!(batch, SEED_67_DRAWS.to_vec());
    let mut b = NoiseGenerator::new(67);
    for _ in 0..GAUSSIAN_TERMS {
        b.next_raw();
    }
    assert_eq!(a.next_raw(), b.next_raw());
}

#[test]
fn batches_compose() {
    let mut a = NoiseGenerator::new(12345);
    let mut first = a.next_raw_batch(5);
    let second = a.next_raw_batch(7);
    first.extend(second);
    let mut b = NoiseGenerator::new(12345);
    assert_eq!(first, b.next_raw_batch(12));
}

#[test]
fn empty_batch_leaves_state() {
    let mut g = NoiseGenerator::new(67);
    assert!(g.next_raw_batch(0).is_empty());
    assert_eq!(g.next_raw(), SEED_67_DRAWS[0]);
}

#[test]
fn distinct_seeds_do_not_merge() {
    let mut a = NoiseGenerator::new(1);
    let mut b = NoiseGenerator::new(2);
    for _ in 0..1000 {
        assert_ne!(a.next_raw(), b.next_raw());
    }
}

#[test]
fn gaussian_terms_count() {
    assert_eq!(GAUSSIAN_TERMS, 16);
}

#[test]
fn seed_one_first_draws() {
    let mut g = NoiseGenerator::new(1);
    assert_eq!(g.next_raw(), 270369);
    assert_eq!(g.next_raw(), 67634689);
}

#[test]
fn gaussian_batch_takes_sixteen_steps() {
    let mut a = NoiseGenerator::new(99);
    let batch = a.next_raw_batch(GAUSSIAN_TERMS);
    assert_eq!(batch.len(), 16);
    let mut b = NoiseGenerator::new(99);
    let mut last = 0;
    for _ in 0..16 {
        last = b.next_raw();
    }
    assert_eq!(batch[15], last);
}
