use rand::rngs::StdRng;
use rand::SeedableRng;
use simpler_economy::game::sentiment::SentimentKind;
use simpler_economy::game::util::{index_from_draw, random_index};

#[test]
fn empty_list_gives_zero() {
    let mut rng = StdRng::seed_from_u64(7);
    assert_eq!(random_index(&mut rng, 0), 0);
    assert_eq!(index_from_draw(12345, 0), 0);
}

#[test]
fn draw_is_taken_modulo_length() {
    assert_eq!(index_from_draw(17, 5), 2);
    assert_eq!(index_from_draw(u64::MAX, 1), 0);
    assert_eq!(index_from_draw(9, 10), 9);
}

#[test]
fn random_index_is_in_range() {
    let mut rng = StdRng::seed_from_u64(42);
    let mut seen = [false; 3];
    for _ in 0..200 {
        let i = random_index(&mut rng, 3);
        assert!(i < 3);
        seen[i] = true;
    }
    // the generator moves on between draws
    assert!(seen.iter().filter(|x| **x).count() > 1);
}

#[test]
fn sentiment_kinds_number_in_order() {
    for (i, k) in SentimentKind::ALL.iter().enumerate() {
        assert_eq!(SentimentKind::kind_index(*k), i);
    }
    assert_eq!(SentimentKind::kind_index(SentimentKind::Hope), 4);
}
