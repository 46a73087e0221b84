use sha2::{Digest, Sha256};
use std::time::{Duration, Instant};
use war_lessons_bot::spam_token::SpamTokenGenerator;

#[test]
fn same_for_the_user() {
    let mut gen = SpamTokenGenerator::new(Duration::from_secs(60));
    assert_eq!(gen.generate(0), gen.generate(0));
}

#[test]
fn differs_per_user() {
    let mut gen = SpamTokenGenerator::new(Duration::from_secs(60));
    assert_ne!(gen.generate(0), gen.generate(1));
}

#[test]
fn refresh() {
    let mut gen = SpamTokenGenerator::new(Duration::ZERO);
    assert_ne!(gen.generate(0), gen.generate(0));
}

#[test]
fn token_is_hex_of_digest_of_seed_and_id() {
    let seed: [u8; 16] = [7; 16];
    let gen = SpamTokenGenerator::with_seed(Duration::from_secs(60), Instant::now(), seed);
    let mut hasher = Sha256::new();
    hasher.update(seed);
    hasher.update(42i64.to_be_bytes());
    let expected = hex::encode(hasher.finalize());
    let token = gen.token(42);
    assert_eq!(token, expected);
    assert_eq!(token.len(), 64);
    assert!(token.chars().all(|c| c.is_ascii_digit() || ('a'..='f').contains(&c)));
}

#[test]
fn token_of_a_negative_id_uses_twos_complement() {
    let seed: [u8; 16] = [0; 16];
    let gen = SpamTokenGenerator::with_seed(Duration::from_secs(60), Instant::now(), seed);
    let mut data = seed.to_vec();
    data.extend_from_slice(&(-2i64).to_be_bytes());
    assert_eq!(gen.token(-2), hex::encode(Sha256::digest(&data)));
    let mut low = seed.to_vec();
    low.extend_from_slice(&i64::MIN.to_be_bytes());
    assert_eq!(gen.token(i64::MIN), hex::encode(Sha256::digest(&low)));
}

#[test]
fn known_digest_of_zero_seed_and_zero_id() {
    // SHA-256 of 24 zero bytes.
    let gen = SpamTokenGenerator::with_seed(Duration::from_secs(1), Instant::now(), [0; 16]);
    assert_eq!(
        gen.token(0),
        "9d908ecfb6b256def8b49a7c504e6c889c4b0e41fe6ce3e01863dd7b61a20aa0"
    );
}

#[test]
fn generate_is_stable_within_the_interval_and_differs_per_sender() {
    let mut gen = SpamTokenGenerator::new(Duration::from_secs(3600));
    let first = gen.generate(42);
    let second = gen.generate(42);
    assert_eq!(first, second);
    assert_ne!(gen.generate(42), gen.generate(43));
}

#[test]
fn generate_changes_once_the_interval_has_passed() {
    let mut gen = SpamTokenGenerator::new(Duration::ZERO);
    let first = gen.generate(42);
    let second = gen.generate(42);
    assert_ne!(first, second);
}

#[test]
fn staleness_is_strictly_beyond_the_lifetime() {
    let gen = SpamTokenGenerator::with_seed(Duration::from_secs(60), Instant::now(), [1; 16]);
    assert!(!gen.is_stale(&Duration::from_secs(59)));
    assert!(!gen.is_stale(&Duration::from_secs(60)));
    assert!(gen.is_stale(&Duration::new(60, 1)));
    assert!(gen.is_stale(&Duration::from_secs(61)));
}

#[test]
fn refresh_replaces_the_seed() {
    let mut gen = SpamTokenGenerator::with_seed(Duration::from_secs(60), Instant::now(), [1; 16]);
    let before = gen.token(42);
    gen.refresh([2; 16], Instant::now());
    let after = gen.token(42);
    assert_ne!(before, after);
    let other = SpamTokenGenerator::with_seed(Duration::from_secs(5), Instant::now(), [2; 16]);
    assert_eq!(after, other.token(42));
}

#[test]
fn two_generators_draw_different_seeds() {
    let mut a = SpamTokenGenerator::new(Duration::from_secs(60));
    let mut b = SpamTokenGenerator::new(Duration::from_secs(60));
    assert_ne!(a.generate(42), b.generate(42));
}

#[test]
fn generate_at_rotates_exactly_when_the_seed_has_outlived_its_time() {
    let lifetime = Duration::from_secs(60);
    let mut gen = SpamTokenGenerator::with_seed(lifetime, Instant::now(), [1; 16]);
    let old = SpamTokenGenerator::with_seed(lifetime, Instant::now(), [1; 16]).token(42);
    let new = SpamTokenGenerator::with_seed(lifetime, Instant::now(), [2; 16]).token(42);
    assert_ne!(old, new);

    // within the interval the seed stays, whatever fresh seed is offered
    assert_eq!(gen.generate_at(42, &Duration::ZERO, [2; 16], Instant::now()), old);
    assert_eq!(gen.generate_at(42, &Duration::from_secs(59), [2; 16], Instant::now()), old);
    assert_eq!(gen.generate_at(42, &Duration::from_secs(60), [2; 16], Instant::now()), old);
    assert_eq!(gen.token(42), old);

    // beyond it the fresh seed takes over, and stays in its turn
    assert_eq!(gen.generate_at(42, &Duration::new(60, 1), [2; 16], Instant::now()), new);
    assert_eq!(gen.token(42), new);
    assert_eq!(gen.generate_at(42, &Duration::from_secs(10), [3; 16], Instant::now()), new);
    assert_ne!(gen.generate_at(43, &Duration::from_secs(10), [3; 16], Instant::now()), new);
}
