//! Taking in a lesson: flood control over a sliding window, and what to
//! tell the sender.

use vstd::prelude::*;
use vstd::string::*;
use crate::clock::{abs_diff, duration_nanos, span_nanos, Timestamp};
use crate::config::Config;
use crate::decimal::{digits_of, push_digits};
use crate::replier::{Replier, Reply};
use crate::scan::chars_of;
use crate::text::Text;

verus! {

/// What to do with a lesson once the sender's recent lessons are known.
#[derive(Debug, PartialEq, Eq)]
pub enum AddStep {
    /// Store the lesson.
    Save,
    /// Store nothing and send this.
    Send(Reply),
}

/// The times of a list of timestamps, in nanoseconds since the Unix epoch.
pub open spec fn stamps(times: Seq<Timestamp>) -> Seq<int> {
    Seq::new(times.len(), |i: int| times[i]@)
}

/// The earliest of `times`, which is not empty.
pub open spec fn oldest(times: Seq<int>) -> int
    decreases times.len(),
{
    if times.len() <= 1 {
        times[0]
    } else {
        let rest = oldest(times.drop_last());
        if times.last() < rest {
            times.last()
        } else {
            rest
        }
    }
}

/// A span in whole seconds, a begun second counted as a whole one.
pub open spec fn seconds_up(nanos: nat) -> nat {
    (nanos + 999_999_999) / 1_000_000_000
}

/// `n`, or the largest `usize` where `n` is larger still.
pub open spec fn capped(n: nat) -> usize {
    if n > usize::MAX {
        usize::MAX
    } else {
        n as usize
    }
}

/// How many seconds a sender has to wait, if at all.
///
/// `times` are the sender's lessons since `since`, the start of the window.
/// With a `limit` of zero there is no flood control. Fewer lessons than
/// `limit` leave room for one more. Otherwise the sender waits until the
/// earliest of them leaves the window: for the distance between it and the
/// start of the window.
pub open spec fn flood_wait(limit: nat, since: int, times: Seq<int>) -> Option<nat> {
    if limit == 0 || times.len() < limit {
        None
    } else {
        Some(seconds_up(abs_diff(oldest(times), since)))
    }
}

/// The start of the window that ends at `now`.
pub open spec fn window_start_at(conf: &Config, now: int) -> int {
    now - duration_nanos(conf.rate_limit_duration)
}

/// A text with every `{}` in it replaced by `value`, from left to right.
pub open spec fn fill(template: Seq<char>, value: Seq<char>) -> Seq<char>
    decreases template.len(),
{
    if template.len() == 0 {
        Seq::empty()
    } else if template.len() >= 2 && template[0] == '{' && template[1] == '}' {
        value + fill(template.skip(2), value)
    } else {
        seq![template[0]] + fill(template.skip(1), value)
    }
}

/// Since when a sender's lessons count, in nanoseconds since the Unix
/// epoch; `None` where flood control is off and nothing needs to be counted.
pub fn window_start(conf: &Config, now: &Timestamp) -> (since: Option<i128>)
    ensures
        match since {
            Some(s) => conf.rate_limit_messages != 0 && s == window_start_at(conf, now@),
            None => conf.rate_limit_messages == 0,
        },
{
    if conf.rate_limit_messages == 0 {
        return None;
    }
    let window = span_nanos(&conf.rate_limit_duration);
    Some(now.unix_nanos() - (window as i128))
}

/// The earliest of `times`.
fn earliest(times: &Vec<Timestamp>) -> (t: i128)
    requires
        times.len() > 0,
    ensures
        t == oldest(stamps(times@)),
        Timestamp::in_range(t as int),
{
    let mut t: i128 = times[0].unix_nanos();
    let mut i: usize = 1;
    proof {
        assert(stamps(times@).take(1).len() == 1);
    }
    while i < times.len()
        invariant
            1 <= i <= times.len(),
            t == oldest(stamps(times@).take(i as int)),
            Timestamp::in_range(t as int),
        decreases times.len() - i,
    {
        let next = times[i].unix_nanos();
        proof {
            let upto = stamps(times@).take(i + 1);
            assert(upto.drop_last() =~= stamps(times@).take(i as int));
            assert(upto.last() == next);
        }
        if next < t {
            t = next;
        }
        i = i + 1;
    }
    proof {
        assert(stamps(times@).take(i as int) =~= stamps(times@));
    }
    t
}

/// Returns the number of seconds to wait before a next message, or `None`
/// where the message is let in: see [`flood_wait`]. `times` are the
/// sender's lessons since the start of the window that ends at `now`.
pub fn is_flood(conf: &Config, now: &Timestamp, times: &Vec<Timestamp>) -> (wait: Option<usize>)
    ensures
        wait == match flood_wait(
            conf.rate_limit_messages as nat,
            window_start_at(conf, now@),
            stamps(times@),
        ) {
            Some(secs) => Some(capped(secs)),
            None => None,
        },
        conf.rate_limit_messages == 0 ==> wait is None,
{
    if conf.rate_limit_messages == 0 {
        return None;
    }
    if times.len() < conf.rate_limit_messages {
        return None;
    }
    let window = span_nanos(&conf.rate_limit_duration);
    let since: i128 = now.unix_nanos() - (window as i128);
    let first = earliest(times);
    let left: i128 = if first >= since {
        first - since
    } else {
        since - first
    };
    let secs: i128 = (left + 999_999_999) / 1_000_000_000;
    if secs > usize::MAX as i128 {
        Some(usize::MAX)
    } else {
        Some(secs as usize)
    }
}

/// Replaces every `{}` of `template` by `value`; see [`fill`].
pub fn fill_in(template: &str, value: &str) -> (text: String)
    ensures
        text@ == fill(template@, value@),
{
    let chars = chars_of(template);
    let mut text = String::new();
    let mut i: usize = 0;
    proof {
        assert(chars@.skip(0) =~= template@);
        assert(text@ + fill(template@, value@) =~= fill(template@, value@));
    }
    while i < chars.len()
        invariant
            0 <= i <= chars.len(),
            chars@ == template@,
            fill(template@, value@) == text@ + fill(chars@.skip(i as int), value@),
        decreases chars.len() - i,
    {
        let ghost rest = chars@.skip(i as int);
        if chars[i] == '{' && i + 1 < chars.len() && chars[i + 1] == '}' {
            proof {
                assert(rest.skip(2) =~= chars@.skip(i + 2));
            }
            text.append(value);
            i = i + 2;
        } else {
            proof {
                assert(rest.skip(1) =~= chars@.skip(i + 1));
            }
            text.push(chars[i]);
            i = i + 1;
        }
        proof {
            assert(fill(template@, value@) =~= text@ + fill(chars@.skip(i as int), value@));
        }
    }
    proof {
        assert(text@ + Seq::<char>::empty() =~= text@);
    }
    text
}

/// What a throttled sender is told: the flood text with the seconds to
/// wait in the place of `{}`.
pub open spec fn flood_notice(template: Seq<char>, wait: usize) -> Seq<char> {
    fill(template, digits_of(wait as nat))
}

/// Decides what follows the flood check.
///
/// `checked` is what counting the sender's recent lessons gave: the seconds
/// to wait, `None` for no wait, or the failure to count. A failure is
/// answered with the internal-error text and a wait with the flood text;
/// only without either is the lesson to be saved.
pub fn add_lesson<E>(repl: &Replier, texts: &Text, checked: &Result<Option<usize>, E>) -> (step:
    AddStep)
    ensures
        match *checked {
            Err(_) => step matches AddStep::Send(r) && r.says(
                repl,
                texts.internal_error.text(repl.lang),
            ),
            Ok(Some(wait)) => step matches AddStep::Send(r) && r.says(
                repl,
                flood_notice(texts.flood.text(repl.lang), wait),
            ),
            Ok(None) => step == AddStep::Save,
        },
{
    match checked {
        Err(_) => AddStep::Send(repl.send_text(&texts.internal_error)),
        Ok(Some(wait_for)) => {
            let mut seconds = String::new();
            push_digits(&mut seconds, *wait_for as u64);
            assert(seconds@ =~= digits_of(*wait_for as nat));
            AddStep::Send(repl.send_text(fill_in(texts.flood.to(repl.lang), seconds.as_str())))
        },
        Ok(None) => AddStep::Save,
    }
}

/// What the sender is told once saving was tried: that the lesson is saved,
/// or the internal-error text where it is not.
pub fn saved_reply<E>(repl: &Replier, texts: &Text, saved: &Result<(), E>) -> (r: Reply)
    ensures
        r.says(
            repl,
            match *saved {
                Ok(_) => texts.lesson_saved.text(repl.lang),
                Err(_) => texts.internal_error.text(repl.lang),
            },
        ),
{
    match saved {
        Ok(_) => repl.send_text(&texts.lesson_saved),
        Err(_) => repl.send_text(&texts.internal_error),
    }
}

} // verus!
