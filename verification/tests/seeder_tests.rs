use rand::{Rng, SeedableRng};
use tribe_terra::draw;

fn test_seed() -> [u8; 32] {
    let mut seed = [0u8; 32];
    let mut i: usize = 0;
    while i < 32 {
        seed[i] = (i as u8).wrapping_mul(7).wrapping_add(13);
        i += 1;
    }
    seed
}

#[test]
fn draw_is_deterministic() {
    let seed = test_seed();
    for off in [0usize, 1, 2, 17, 31, 32, 33, 1000] {
        let a = draw(1, 6, &seed, off);
        let b = draw(1, 6, &seed, off);
        assert_eq!(a, b);
    }
}

#[test]
fn draw_stays_in_range() {
    let seed = test_seed();
    for off in 0..64usize {
        let v = draw(10, 20, &seed, off);
        assert!(v >= 10 && v < 20);
        let w = draw(0, 2, &seed, off);
        assert!(w < 2);
    }
}

#[test]
fn draw_matches_seeded_generator() {
    let seed = test_seed();
    for off in [0usize, 1, 5, 31, 32, 40, 77] {
        let k = off % 32;
        let mut rotated = [0u8; 32];
        for i in 0..32 {
            rotated[i] = seed[(i + k) % 32];
        }
        let mut rng = rand::rngs::StdRng::from_seed(rotated);
        let expect: u16 = rng.gen_range(1..60000);
        assert_eq!(draw(1, 60000, &seed, off), expect);
    }
}

#[test]
fn distinct_offsets_give_distinct_draws() {
    let seed = test_seed();
    let a = draw(0, 60000, &seed, 0);
    let b = draw(0, 60000, &seed, 1);
    let c = draw(0, 60000, &seed, 2);
    assert!(a != b || b != c);
}
