//! The confirmation challenge: token generation, the scan that decides whether a
//! command must be confirmed, and the check of the user's reply.
use vstd::prelude::*;

use rand::Rng;

use crate::check::{views, Check, CheckView};
use crate::matcher::{is_match_result, run_check_on_command};

verus! {

/// Number of characters a token is drawn from.
pub const TOKEN_ALPHABET_LEN: u64 = 62;

/// The token character for a draw: `A`-`Z`, then `a`-`z`, then `0`-`9`, by the draw
/// modulo the alphabet size.
pub open spec fn token_char(d: u64) -> char {
    let k = d % 62;
    if k < 26 {
        (65 + k) as u8 as char
    } else if k < 52 {
        (97 + (k - 26)) as u8 as char
    } else {
        (48 + (k - 52)) as u8 as char
    }
}

/// The token that a sequence of draws spells.
pub open spec fn token_of(draws: Seq<u64>) -> Seq<char> {
    draws.map_values(|d: u64| token_char(d))
}

/// Relies on `rand::Rng::gen_range` over `rand::thread_rng()`: a number below `n`.
#[verifier::external_body]
fn random_below(n: u64) -> (r: u64)
    requires
        n > 0,
    ensures
        r < n,
{
    rand::thread_rng().gen_range(0..n)
}

/// Relies on `String::push`: appends one character.
#[verifier::external_body]
fn push_char(s: &mut String, c: char)
    ensures
        final(s)@ == old(s)@.push(c),
{
    s.push(c)
}

/// The token character of one draw.
pub fn token_char_of(d: u64) -> (c: char)
    ensures
        c == token_char(d),
{
    let k: u64 = d % 62;
    if k < 26 {
        (65 + k) as u8 as char
    } else if k < 52 {
        (97 + (k - 26)) as u8 as char
    } else {
        (48 + (k - 52)) as u8 as char
    }
}

/// The challenge token spelled by `draws`, one character per draw.
pub fn token_from_draws(draws: &Vec<u64>) -> (r: String)
    ensures
        r@ == token_of(draws@),
{
    let mut r = String::new();
    let mut i: usize = 0;
    while i < draws.len()
        invariant
            i <= draws@.len(),
            r@ == token_of(draws@.subrange(0, i as int)),
        decreases draws@.len() - i,
    {
        let c = token_char_of(draws[i]);
        push_char(&mut r, c);
        assert(token_of(draws@.subrange(0, i + 1)) =~= token_of(draws@.subrange(0, i as int)).push(
            c,
        ));
        i = i + 1;
    }
    assert(draws@.subrange(0, i as int) =~= draws@);
    r
}

/// `n` fresh random draws, each below the alphabet size.
pub fn random_draws(n: usize) -> (r: Vec<u64>)
    ensures
        r@.len() == n,
        forall|i: int| 0 <= i < n ==> #[trigger] r@[i] < TOKEN_ALPHABET_LEN,
{
    let mut r: Vec<u64> = Vec::new();
    let mut i: usize = 0;
    while i < n
        invariant
            i <= n,
            r@.len() == i,
            forall|k: int| 0 <= k < i ==> #[trigger] r@[k] < TOKEN_ALPHABET_LEN,
        decreases n - i,
    {
        let d = random_below(TOKEN_ALPHABET_LEN);
        r.push(d);
        i = i + 1;
    }
    r
}

/// A fresh random challenge token of `length` characters.
pub fn generate_token(length: usize) -> (r: String)
    ensures
        r@.len() == length,
        exists|d: Seq<u64>| r@ == token_of(d),
{
    let draws = random_draws(length);
    token_from_draws(&draws)
}

/// What happens to a command after the scan.
pub enum Decision {
    /// No active check matched: the command may run without a prompt.
    Clear,
    /// These checks matched (ids, from the largest down): the user must retype `token`.
    Challenge { matched: Vec<u64>, token: String },
}

/// Scans `command` against the active checks. When nothing matches the command is
/// clear; otherwise the matched ids and the token spelled by `draws` make the challenge.
pub fn scan(active: &Vec<Check>, command: &str, draws: &Vec<u64>) -> (r: Decision)
    ensures
        r is Clear <==> (forall|m: Seq<u64>|
            is_match_result(views(active@), command@, m) ==> m.len() == 0),
        r matches Decision::Challenge { matched, token } ==> is_match_result(
            views(active@),
            command@,
            matched@,
        ) && matched@.len() > 0 && token@ == token_of(draws@),
{
    let matched = run_check_on_command(active, command);
    if matched.len() == 0 {
        proof {
            assert forall|m: Seq<u64>| is_match_result(views(active@), command@, m) implies m.len()
                == 0 by {
                crate::matcher::lemma_match_deterministic(views(active@), command@, m, matched@);
            }
        }
        Decision::Clear
    } else {
        let token = token_from_draws(draws);
        Decision::Challenge { matched, token }
    }
}

/// Scans `command` against the active checks, drawing a fresh random token of
/// `challenge_length` characters only when some check matched. A token is never empty.
pub fn evaluate(active: &Vec<Check>, command: &str, challenge_length: usize) -> (r: Decision)
    requires
        challenge_length > 0,
    ensures
        r is Clear <==> (forall|m: Seq<u64>|
            is_match_result(views(active@), command@, m) ==> m.len() == 0),
        r matches Decision::Challenge { matched, token } ==> is_match_result(
            views(active@),
            command@,
            matched@,
        ) && matched@.len() > 0 && token@.len() == challenge_length && exists|d: Seq<u64>|
            token@ == token_of(d),
{
    let matched = run_check_on_command(active, command);
    if matched.len() == 0 {
        proof {
            assert forall|m: Seq<u64>| is_match_result(views(active@), command@, m) implies m.len()
                == 0 by {
                crate::matcher::lemma_match_deterministic(views(active@), command@, m, matched@);
            }
        }
        Decision::Clear
    } else {
        let token = generate_token(challenge_length);
        Decision::Challenge { matched, token }
    }
}

/// Outcome of one invocation.
#[derive(Clone, Copy, Debug, PartialEq, Eq, Structural)]
pub enum Status {
    /// Nothing matched, or the user confirmed.
    Allow,
    /// The user did not retype the token.
    Abort,
    /// The catalog or the settings could not be loaded.
    ConfigError,
}

/// The status of a challenge with token `token` and the user's reply (`None` when the
/// input ended): only the exact token confirms.
pub open spec fn reply_status(token: Seq<char>, reply: Option<Seq<char>>) -> Status {
    if reply == Some(token) {
        Status::Allow
    } else {
        Status::Abort
    }
}

/// Checks the user's reply against the token, by exact case-sensitive equality. There
/// is no second attempt.
pub fn confirm(token: &String, reply: &Option<String>) -> (r: Status)
    ensures
        r == reply_status(token@, match reply {
            Some(s) => Some(s@),
            None => None,
        }),
{
    match reply {
        Some(s) => {
            if *s == *token {
                Status::Allow
            } else {
                Status::Abort
            }
        },
        None => Status::Abort,
    }
}

/// The status of a decision given the user's reply, `reply` being ignored when no
/// prompt was needed.
pub open spec fn settle_spec(d: &Decision, reply: Option<Seq<char>>) -> Status {
    match d {
        Decision::Clear => Status::Allow,
        Decision::Challenge { token, .. } => reply_status(token@, reply),
    }
}

/// The final status of a scanned command: a clear command is allowed without a prompt;
/// a challenged one is allowed only when the reply is exactly the token.
pub fn settle(d: &Decision, reply: &Option<String>) -> (r: Status)
    ensures
        r == settle_spec(d, match reply {
            Some(s) => Some(s@),
            None => None,
        }),
{
    match d {
        Decision::Clear => Status::Allow,
        Decision::Challenge { token, .. } => confirm(token, reply),
    }
}

/// A command that no active check matches is allowed, with no challenge.
pub proof fn lemma_no_match_allows(
    active: Seq<CheckView>,
    command: Seq<char>,
    d: &Decision,
    reply: Option<Seq<char>>,
)
    requires
        d is Clear <==> (forall|m: Seq<u64>| is_match_result(active, command, m) ==> m.len() == 0),
        is_match_result(active, command, Seq::empty()),
    ensures
        d is Clear,
        settle_spec(d, reply) == Status::Allow,
{
    assert forall|m: Seq<u64>| is_match_result(active, command, m) implies m.len() == 0 by {
        crate::matcher::lemma_match_deterministic(active, command, m, Seq::empty());
    }
}

/// Once a command is challenged, any reply other than the token aborts it, and the
/// exact token lets it run.
pub proof fn lemma_rejection_path(d: &Decision, reply: Option<Seq<char>>)
    requires
        d is Challenge,
    ensures
        reply != Some(d->token@) ==> settle_spec(d, reply) == Status::Abort,
        reply == Some(d->token@) ==> settle_spec(d, reply) == Status::Allow,
{
}

} // verus!
