//! Spam tokens: a pseudonym for a sender that changes with a secret seed.
//!
//! Flood control and spam cleaning need to know which lessons came from one
//! sender, not who the sender is. The token is the digest of a random seed
//! and the sender's id; once the seed is replaced, old and new tokens of
//! one sender can no longer be told to belong together.

use vstd::prelude::*;
use std::time::{Duration, Instant};
use rand::Rng;
use sha2::Digest;
use crate::clock::{duration_nanos, elapsed, instant_now, span_nanos};

verus! {

/// A token we assign to a user for a specific time period to prevent flood
/// and to ease spam cleaning.
pub struct SpamTokenGenerator {
    /// Period to update the seed.
    refresh_in: Duration,
    /// A moment of the seed creation.
    refreshed_at: Instant,
    /// The random seed.
    seed: [u8; 16],
}

/// The SHA-256 digest of `data`.
pub uninterp spec fn sha256(data: Seq<u8>) -> Seq<u8>;

/// `Sha256::digest` of sha2: the digest of the bytes, which is 32 bytes
/// long and the same for the same bytes.
#[verifier::external_body]
fn sha256_digest(data: &Vec<u8>) -> (digest: Vec<u8>)
    ensures
        digest@ == sha256(data@),
        digest@.len() == 32,
{
    sha2::Sha256::digest(data.as_slice()).to_vec()
}

/// `hex::encode`: two lowercase hex digits for each byte, the high half of
/// the byte first.
#[verifier::external_body]
fn hex_encode(bytes: &Vec<u8>) -> (text: String)
    ensures
        text@ == hex_text(bytes@),
{
    hex::encode(bytes)
}

/// `Rng::gen` on `rand::thread_rng`: sixteen random bytes. Nothing is
/// claimed of them.
#[verifier::external_body]
fn random_seed() -> [u8; 16] {
    rand::thread_rng().gen()
}

/// The lowercase hex digit for a number below sixteen.
pub open spec fn hex_digit(n: int) -> char {
    if n < 10 {
        ('0' as int + n) as char
    } else {
        ('a' as int + n - 10) as char
    }
}

/// Bytes written in hex: two lowercase digits each, the high half first.
pub open spec fn hex_text(bytes: Seq<u8>) -> Seq<char> {
    Seq::new(
        2 * bytes.len(),
        |i: int|
            if i % 2 == 0 {
                hex_digit(bytes[i / 2] as int / 16)
            } else {
                hex_digit(bytes[i / 2] as int % 16)
            },
    )
}

/// The eight bytes of `v` in two's complement, the most significant first.
pub open spec fn be_bytes(v: i64) -> Seq<u8> {
    Seq::new(8, |i: int| ((v as u64) >> (((7 - i) * 8) as u64)) as u8)
}

/// The token of the user `user_id` under `seed`: the digest of the seed
/// followed by the user's id, in hex.
pub open spec fn spam_token(seed: Seq<u8>, user_id: i64) -> Seq<char> {
    hex_text(sha256(seed + be_bytes(user_id)))
}

/// Appends the bytes of `v`; see [`be_bytes`].
fn push_be_bytes(out: &mut Vec<u8>, v: i64)
    ensures
        final(out)@ == old(out)@ + be_bytes(v),
{
    let u: u64 = v as u64;
    let mut i: usize = 0;
    while i < 8
        invariant
            0 <= i <= 8,
            u == v as u64,
            out@ == old(out)@ + be_bytes(v).take(i as int),
        decreases 8 - i,
    {
        let shift: u64 = ((7 - i) * 8) as u64;
        out.push((u >> shift) as u8);
        proof {
            assert(be_bytes(v).take(i + 1) =~= be_bytes(v).take(i as int).push(be_bytes(v)[i as int]));
            assert(out@ =~= old(out)@ + be_bytes(v).take(i + 1));
        }
        i = i + 1;
    }
    proof {
        assert(be_bytes(v).take(8) =~= be_bytes(v));
    }
}

impl SpamTokenGenerator {
    /// The seed in use.
    pub closed spec fn seed(&self) -> Seq<u8> {
        self.seed@
    }

    /// How long a seed is used.
    pub closed spec fn lifetime(&self) -> Duration {
        self.refresh_in
    }

    /// When the seed in use was drawn.
    pub closed spec fn refreshed_at(&self) -> Instant {
        self.refreshed_at
    }

    /// Creates a new generator for the specified duration, with a seed
    /// drawn at random.
    pub fn new(refresh_in: Duration) -> (g: Self)
        ensures
            g.lifetime() == refresh_in,
            g.seed().len() == 16,
    {
        SpamTokenGenerator { refresh_in, refreshed_at: instant_now(), seed: random_seed() }
    }

    /// A generator that uses `seed` since `refreshed_at`.
    pub fn with_seed(refresh_in: Duration, refreshed_at: Instant, seed: [u8; 16]) -> (g: Self)
        ensures
            g.lifetime() == refresh_in,
            g.refreshed_at() == refreshed_at,
            g.seed() == seed@,
    {
        SpamTokenGenerator { refresh_in, refreshed_at, seed }
    }

    /// Whether a seed that has been used for `age` has outlived its time.
    pub fn is_stale(&self, age: &Duration) -> (stale: bool)
        ensures
            stale == (duration_nanos(*age) > duration_nanos(self.lifetime())),
    {
        span_nanos(age) > span_nanos(&self.refresh_in)
    }

    /// Replaces the seed by `seed`, drawn at `now`.
    pub fn refresh(&mut self, seed: [u8; 16], now: Instant)
        ensures
            final(self).seed() == seed@,
            final(self).refreshed_at() == now,
            final(self).lifetime() == old(self).lifetime(),
    {
        self.seed = seed;
        self.refreshed_at = now;
    }

    /// The token of the user under the seed in use: 64 hex digits.
    pub fn token(&self, user_id: i64) -> (token: String)
        ensures
            token@ == spam_token(self.seed(), user_id),
            token@.len() == 64,
    {
        let mut data: Vec<u8> = Vec::new();
        let mut i: usize = 0;
        while i < 16
            invariant
                0 <= i <= 16,
                data@ == self.seed@.take(i as int),
            decreases 16 - i,
        {
            data.push(self.seed[i]);
            proof {
                assert(self.seed@.take(i + 1) =~= self.seed@.take(i as int).push(self.seed@[i as int]));
            }
            i = i + 1;
        }
        proof {
            assert(self.seed@.take(16) =~= self.seed@);
        }
        push_be_bytes(&mut data, user_id);
        hex_encode(&sha256_digest(&data))
    }

    /// Whether `self` is what `before` becomes once its seed is looked
    /// after: a seed of the age `age` that has outlived its time is replaced
    /// by `fresh`, drawn at `now`; any other seed stays, with its time. How
    /// long a seed is used never changes.
    pub open spec fn follows(
        &self,
        before: &Self,
        age: Duration,
        fresh: Seq<u8>,
        now: Instant,
    ) -> bool {
        &&& self.lifetime() == before.lifetime()
        &&& if duration_nanos(age) > duration_nanos(before.lifetime()) {
            self.seed() == fresh && self.refreshed_at() == now
        } else {
            self.seed() == before.seed() && self.refreshed_at() == before.refreshed_at()
        }
    }

    /// A sender's token stays the same for as long as the seed has not
    /// outlived its time: asked for again at such an age, it is the token
    /// that the generator gave before.
    pub proof fn lemma_token_stable(
        before: Self,
        after: Self,
        age: Duration,
        fresh: Seq<u8>,
        now: Instant,
        user_id: i64,
    )
        requires
            after.follows(&before, age, fresh, now),
            duration_nanos(age) <= duration_nanos(before.lifetime()),
        ensures
            spam_token(after.seed(), user_id) == spam_token(before.seed(), user_id),
    {
    }

    /// The token for the user once the seed is looked after, the clock's
    /// and the random source's answers given: `age` is how long the seed
    /// has been in use, and `fresh` a seed drawn at `now` to replace it if
    /// it has outlived its time. See [`Self::follows`].
    pub fn generate_at(&mut self, user_id: i64, age: &Duration, fresh: [u8; 16], now: Instant) -> (token:
        String)
        ensures
            final(self).follows(old(self), *age, fresh@, now),
            final(self).seed().len() == 16,
            token@ == spam_token(final(self).seed(), user_id),
            token@.len() == 64,
    {
        if self.is_stale(age) {
            self.refresh(fresh, now);
        }
        self.token(user_id)
    }

    /// Returns a 64-character long token for the user.
    ///
    /// The age of the seed is read from the clock. A seed that has
    /// outlived its time is replaced first, by one drawn at random. What
    /// the generator is left with follows from what it was by some age and
    /// some fresh seed, see [`Self::follows`]; the token is that of the
    /// user under the seed it is left with.
    pub fn generate(&mut self, user_id: i64) -> (token: String)
        ensures
            exists|age: Duration, fresh: Seq<u8>, now: Instant|
                fresh.len() == 16 && #[trigger] final(self).follows(old(self), age, fresh, now),
            final(self).seed().len() == 16,
            token@ == spam_token(final(self).seed(), user_id),
            token@.len() == 64,
    {
        let age = elapsed(&self.refreshed_at);
        if self.is_stale(&age) {
            let fresh = random_seed();
            let now = instant_now();
            let token = self.generate_at(user_id, &age, fresh, now);
            assert(fresh@.len() == 16 && self.follows(old(self), age, fresh@, now));
            token
        } else {
            assert(self.seed@.len() == 16 && self.follows(
                old(self),
                age,
                self.seed@,
                self.refreshed_at,
            ));
            self.token(user_id)
        }
    }
}

} // verus!
