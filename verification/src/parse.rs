//! The command parser: a raw message becomes a command keyword and its
//! positional argument tokens.

use vstd::prelude::*;
use crate::split::{split_ws, split_tokens};
use crate::tokens::seq_eq_ci;

verus! {

/// The text does not begin with the command prefix, or the keyword is
/// addressed to a different handle.
#[derive(Clone, Copy, Debug, PartialEq, Eq, Structural)]
pub struct ParseError;

/// The recognized command keywords.
#[derive(Clone, Copy, Debug, PartialEq, Eq, Structural)]
pub enum Command {
    Help,
    Buy,
    Sell,
    Balance,
    Tokens,
    Gas,
    Watch,
    Cancel,
}

/// The index of the first `@` in `s`, or `s.len()` if none.
pub open spec fn find_at(s: Seq<char>) -> int
    decreases s.len(),
{
    if s.len() == 0 {
        0
    } else if s[0] == '@' {
        0
    } else {
        1 + find_at(s.drop_first())
    }
}

pub proof fn lemma_find_at_is(s: Seq<char>, k: int)
    requires
        0 <= k <= s.len(),
        forall|j: int| 0 <= j < k ==> s[j] != '@',
        k < s.len() ==> s[k] == '@',
    ensures
        find_at(s) == k,
    decreases s.len(),
{
    if s.len() > 0 && s[0] != '@' {
        assert forall|j: int| 0 <= j < k - 1 implies s.drop_first()[j] != '@' by {
            assert(s.drop_first()[j] == s[j + 1]);
        }
        lemma_find_at_is(s.drop_first(), k - 1);
    }
}

/// What parsing a message yields: the keyword after the leading `/`, with an
/// optional `@handle` suffix stripped when it names this bot, and the
/// remaining tokens as arguments. `None` when the first token does not begin
/// with `/`, when there is no token at all, or when the suffix names a
/// different handle.
pub open spec fn spec_parse(text: Seq<char>, handle: Seq<char>) -> Option<(Seq<char>, Seq<Seq<char>>)> {
    let toks = split_ws(text);
    if toks.len() == 0 {
        None
    } else if toks[0].len() == 0 || toks[0][0] != '/' {
        None
    } else {
        let body = toks[0].subrange(1, toks[0].len() as int);
        let a = find_at(body);
        let keyword = body.subrange(0, a);
        if a == body.len() {
            Some((keyword, toks.drop_first()))
        } else if seq_eq_ci(body.subrange(a + 1, body.len() as int), handle) {
            Some((keyword, toks.drop_first()))
        } else {
            None
        }
    }
}

/// Splits a raw message into its command keyword and argument tokens.
///
/// The keyword is the first token without its leading `/`; an `@handle`
/// suffix is accepted, case-insensitively, only for this bot's own handle.
pub fn parse_command(text: &str, handle: &str) -> (r: Result<(String, Vec<String>), ParseError>)
    ensures
        match r {
            Ok(p) => spec_parse(text@, handle@) == Some((p.0@, p.1.deep_view())),
            Err(_) => spec_parse(text@, handle@) is None,
        },
{
    let toks = split_tokens(text);
    if toks.len() == 0 {
        return Err(ParseError);
    }
    let first = toks[0].as_str();
    let n = first.unicode_len();
    if n == 0 || first.get_char(0) != '/' {
        return Err(ParseError);
    }
    let body = first.substring_char(1, n);
    proof {
        assert(body@ =~= toks.deep_view()[0].subrange(1, toks.deep_view()[0].len() as int));
    }
    let bn = body.unicode_len();
    let mut a: usize = 0;
    while a < bn && body.get_char(a) != '@'
        invariant
            bn == body@.len(),
            a <= bn,
            forall|j: int| 0 <= j < a ==> body@[j] != '@',
        decreases bn - a,
    {
        a += 1;
    }
    proof {
        lemma_find_at_is(body@, a as int);
    }
    if a < bn {
        let suffix = body.substring_char(a + 1, bn);
        if !crate::tokens::str_eq_ci(suffix, handle) {
            return Err(ParseError);
        }
    }
    let keyword = body.substring_char(0, a).to_owned();
    let mut args: Vec<String> = Vec::new();
    let mut i: usize = 1;
    while i < toks.len()
        invariant
            1 <= i <= toks.len(),
            args.deep_view() =~~= toks.deep_view().subrange(1, i as int),
        decreases toks.len() - i,
    {
        let t = toks[i].clone();
        let ghost prev = args.deep_view();
        args.push(t);
        proof {
            assert(t@ == toks.deep_view()[i as int]);
            assert(args.deep_view() =~~= prev.push(toks.deep_view()[i as int]));
            assert(args.deep_view() =~~= toks.deep_view().subrange(1, i + 1 as int));
        }
        i += 1;
    }
    proof {
        assert(args.deep_view() =~~= split_ws(text@).drop_first());
    }
    Ok((keyword, args))
}

/// The command a keyword names, matched case-insensitively.
pub open spec fn spec_command_of(k: Seq<char>) -> Option<Command> {
    if seq_eq_ci(k, "help"@) {
        Some(Command::Help)
    } else if seq_eq_ci(k, "buy"@) {
        Some(Command::Buy)
    } else if seq_eq_ci(k, "sell"@) {
        Some(Command::Sell)
    } else if seq_eq_ci(k, "balance"@) {
        Some(Command::Balance)
    } else if seq_eq_ci(k, "tokens"@) {
        Some(Command::Tokens)
    } else if seq_eq_ci(k, "gas"@) {
        Some(Command::Gas)
    } else if seq_eq_ci(k, "watch"@) {
        Some(Command::Watch)
    } else if seq_eq_ci(k, "cancel"@) {
        Some(Command::Cancel)
    } else {
        None
    }
}

/// Looks a keyword up among the recognized commands.
pub fn command_of(k: &str) -> (r: Option<Command>)
    ensures
        r == spec_command_of(k@),
{
    if crate::tokens::str_eq_ci(k, "help") {
        Some(Command::Help)
    } else if crate::tokens::str_eq_ci(k, "buy") {
        Some(Command::Buy)
    } else if crate::tokens::str_eq_ci(k, "sell") {
        Some(Command::Sell)
    } else if crate::tokens::str_eq_ci(k, "balance") {
        Some(Command::Balance)
    } else if crate::tokens::str_eq_ci(k, "tokens") {
        Some(Command::Tokens)
    } else if crate::tokens::str_eq_ci(k, "gas") {
        Some(Command::Gas)
    } else if crate::tokens::str_eq_ci(k, "watch") {
        Some(Command::Watch)
    } else if crate::tokens::str_eq_ci(k, "cancel") {
        Some(Command::Cancel)
    } else {
        None
    }
}

} // verus!
