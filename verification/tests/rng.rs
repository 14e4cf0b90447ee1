use orion_core::rng::{LcgRng, Rng, ScriptedRng};

#[test]
fn lcg_rng_produces_deterministic_sequence() {
    let mut rng = LcgRng::new(1);
    let a = rng.next_u32();
    let b = rng.next_u32();
    assert_ne!(a, b);
    let mut rng2 = LcgRng::new(1);
    assert_eq!(rng2.next_u32(), a);
    assert_eq!(rng2.next_u32(), b);
}

#[test]
fn lcg_rng_index_returns_values_within_limit() {
    let mut rng = LcgRng::new(42);
    for _ in 0..100 {
        let idx = rng.index(10);
        assert!(idx < 10);
    }
}

#[test]
fn scripted_rng_cycles_values() {
    let mut rng = ScriptedRng::new(vec![7u32, 3, 9]);
    assert_eq!(rng.next_u32(), 7);
    assert_eq!(rng.next_u32(), 3);
    assert_eq!(rng.next_u32(), 9);
    assert_eq!(rng.next_u32(), 7);
    assert_eq!(rng.next_u32(), 3);
}

#[test]
fn scripted_rng_index_modulates_by_limit() {
    let mut rng = ScriptedRng::new(vec![17u32]);
    assert_eq!(rng.index(5), 17 % 5);
}

#[test]
fn lcg_step_matches_numerical_recipes_constants() {
    let mut rng = LcgRng::new(0);
    assert_eq!(rng.next_u32(), 1_013_904_223);
    assert_eq!(rng.next_u32(), 1_196_435_762);
}

#[test]
fn scripted_index_reduces_each_value_in_turn() {
    let mut rng = ScriptedRng::new(vec![9, 14]);
    assert_eq!(rng.index(7), 2);
    assert_eq!(rng.index(10), 4);
    assert_eq!(rng.index(4), 1);
}
