//! Settings of a running bot.

use vstd::prelude::*;
use std::time::Duration;

verus! {

/// What the operator sets.
#[derive(Debug)]
pub struct Config {
    pub database_url: String,
    pub teloxide_token: String,
    /// How long a sender keeps one spam token.
    pub spam_token_lifetime: Duration,
    /// No more than `rate_limit_messages` per `rate_limit_duration`; zero
    /// switches flood control off.
    pub rate_limit_messages: usize,
    pub rate_limit_duration: Duration,
    pub journal_logging: bool,
    /// The users who may moderate.
    pub moderators: Vec<i64>,
}

impl Config {
    /// Whether `user_id` is on the list of moderators.
    pub fn is_moderator(&self, user_id: i64) -> (b: bool)
        ensures
            b == self.moderators@.contains(user_id),
    {
        let mut i: usize = 0;
        while i < self.moderators.len()
            invariant
                0 <= i <= self.moderators.len(),
                forall|k: int| 0 <= k < i ==> self.moderators@[k] != user_id,
            decreases self.moderators.len() - i,
        {
            if self.moderators[i] == user_id {
                return true;
            }
            i = i + 1;
        }
        false
    }
}

} // verus!
