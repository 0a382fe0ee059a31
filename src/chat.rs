use vstd::prelude::*;
use crate::config::{template_of, Config};
use crate::data::GameData;
use crate::ratelimit::{after_trigger, allows, Ratelimiter};
use crate::render::{strfmt_output, template_vars, FormatError};
use crate::text::{is_white_space, white_space};

verus! {

/// The first index from `i` on that holds no white space, or the length.
pub open spec fn word_start(s: Seq<char>, i: int) -> int
    decreases s.len() - i,
{
    if i >= s.len() || !is_white_space(s[i]) {
        i
    } else {
        word_start(s, i + 1)
    }
}

/// The first index from `i` on that holds white space, or the length.
pub open spec fn word_end(s: Seq<char>, i: int) -> int
    decreases s.len() - i,
{
    if i >= s.len() || is_white_space(s[i]) {
        i
    } else {
        word_end(s, i + 1)
    }
}

/// The command of a chat message: for a message that starts with `!`, the
/// first white-space-delimited word after it, if there is one.
pub open spec fn command_token(s: Seq<char>) -> Option<Seq<char>> {
    if s.len() == 0 || s[0] != '!' {
        None
    } else if word_start(s, 1) >= s.len() {
        None
    } else {
        Some(s.subrange(word_start(s, 1), word_end(s, word_start(s, 1))))
    }
}

/// The command that a chat message gives, if any.
pub fn command_of(text: &str) -> (r: Option<String>)
    ensures
        r is Some == command_token(text@) is Some,
        r is Some ==> r->0@ == command_token(text@)->0,
{
    let n = text.unicode_len();
    if n == 0 || text.get_char(0) != '!' {
        return None;
    }
    let mut a: usize = 1;
    while a < n && white_space(text.get_char(a))
        invariant
            n == text@.len(),
            1 <= a <= n,
            word_start(text@, 1) == word_start(text@, a as int),
        decreases n - a,
    {
        a = a + 1;
    }
    if a >= n {
        return None;
    }
    let mut b: usize = a;
    while b < n && !white_space(text.get_char(b))
        invariant
            n == text@.len(),
            a <= b <= n,
            word_end(text@, a as int) == word_end(text@, b as int),
        decreases n - b,
    {
        b = b + 1;
    }
    Some(String::from_str(text.substring_char(a, b)))
}

/// Decides what to answer to a chat message at time `now` on the limiter's
/// clock. A message with no command, or with a command that has no
/// template, gets no answer and leaves the limiter alone. For a known
/// command the limiter is consulted: when it refuses there is no answer,
/// when it allows the answer is the command's template rendered with
/// `state`, or the error that rendering gave.
pub fn reply_to(
    config: &Config,
    limiter: &mut Ratelimiter,
    state: &GameData,
    text: &str,
    now: u128,
) -> (r: Option<Result<String, FormatError>>)
    requires
        old(limiter).wf(),
    ensures
        final(limiter).wf(),
        final(limiter).period() == old(limiter).period(),
        command_token(text@) is None ==> r is None && final(limiter).stamps() == old(
            limiter,
        ).stamps(),
        command_token(text@) is Some && template_of(config.templates@, command_token(text@)->0)
            is None ==> r is None && final(limiter).stamps() == old(limiter).stamps(),
        command_token(text@) is Some && template_of(config.templates@, command_token(text@)->0)
            is Some ==> ({
            let key = command_token(text@)->0;
            let template = template_of(config.templates@, key)->0;
            let allowed = allows(old(limiter).stamps(), old(limiter).period(), key, now);
            &&& final(limiter).stamps() == after_trigger(old(limiter).stamps(), allowed, key, now)
            &&& r is Some == allowed
            &&& r matches Some(Ok(s)) ==> strfmt_output(template, template_vars(*state)) == Some(
                s@,
            )
            &&& r matches Some(Err(_)) ==> strfmt_output(template, template_vars(*state)) is None
        }),
{
    let command = match command_of(text) {
        Some(c) => c,
        None => return None,
    };
    let template = match config.get_template(command.as_str()) {
        Some(t) => t,
        None => return None,
    };
    if !limiter.trigger_at(command, now) {
        return None;
    }
    Some(state.get_formatted_string(template.as_str()))
}

} // verus!
