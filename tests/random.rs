use planetgen::random_words;
use rand_xoshiro::rand_core::{RngCore, SeedableRng};
use rand_xoshiro::Xoshiro256StarStar;

fn direct(seed: u64, count: usize) -> Vec<u32> {
    let mut g = Xoshiro256StarStar::seed_from_u64(seed);
    (0..count).map(|_| g.next_u32()).collect()
}

#[test]
fn random_words_follow_the_seeded_generator() {
    let seed = 1.5f64.to_bits();
    let words = random_words(&[seed], 4);
    assert_eq!(words, direct(seed, 4));
    assert_ne!(words, vec![0u32; 4]);
    assert_ne!(words[0] as u64, seed & 0xffff_ffff);
}

#[test]
fn random_words_combine_seed_parts_by_xor() {
    let a = 0x1234_5678_9abc_def0u64;
    let b = 0x0fed_cba9_8765_4321u64;
    let c = 42u64;
    assert_eq!(random_words(&[a, b, c], 3), direct(a ^ b ^ c, 3));
    assert_eq!(random_words(&[a, b], 2), random_words(&[b, a], 2));
}

#[test]
fn random_words_are_a_prefix_of_longer_draws() {
    let long = random_words(&[7], 8);
    let short = random_words(&[7], 3);
    assert_eq!(&long[..3], &short[..]);
    assert!(random_words(&[7], 0).is_empty());
    assert_eq!(random_words(&[], 2), direct(0, 2));
}

#[test]
fn random_words_differ_between_seeds() {
    assert_ne!(random_words(&[1], 4), random_words(&[2], 4));
}
