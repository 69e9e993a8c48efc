//! Splitting a raw message into whitespace-separated tokens.

use vstd::prelude::*;
use crate::tokens::{is_space, is_space_char};

verus! {

/// The end of the token that starts at `i`: the first position at or after
/// `i` that is past the end or holds whitespace.
pub open spec fn token_end(s: Seq<char>, i: int) -> int
    decreases s.len() - i when 0 <= i <= s.len()
{
    if i >= s.len() || is_space(s[i]) {
        i
    } else {
        token_end(s, i + 1)
    }
}

pub proof fn lemma_token_end(s: Seq<char>, i: int)
    requires
        0 <= i <= s.len(),
    ensures
        i <= token_end(s, i) <= s.len(),
        forall|j: int| i <= j < token_end(s, i) ==> !is_space(s[j]),
        token_end(s, i) < s.len() ==> is_space(s[token_end(s, i)]),
        i < s.len() && !is_space(s[i]) ==> token_end(s, i) > i,
    decreases s.len() - i,
{
    if i < s.len() && !is_space(s[i]) {
        lemma_token_end(s, i + 1);
    }
}

/// The tokens of `s` from position `i` on: maximal runs of non-whitespace.
pub open spec fn split_ws_from(s: Seq<char>, i: int) -> Seq<Seq<char>>
    decreases s.len() - i when 0 <= i <= s.len() via split_ws_from_decreases
{
    if i >= s.len() {
        Seq::empty()
    } else if is_space(s[i]) {
        split_ws_from(s, i + 1)
    } else {
        seq![s.subrange(i, token_end(s, i))] + split_ws_from(s, token_end(s, i))
    }
}

#[via_fn]
proof fn split_ws_from_decreases(s: Seq<char>, i: int) {
    if 0 <= i <= s.len() {
        lemma_token_end(s, i);
    }
}

/// The whitespace-separated tokens of `s`.
pub open spec fn split_ws(s: Seq<char>) -> Seq<Seq<char>> {
    split_ws_from(s, 0)
}

/// Splits `s` into its whitespace-separated tokens, in order.
pub fn split_tokens(s: &str) -> (toks: Vec<String>)
    ensures
        toks.deep_view() == split_ws(s@),
{
    let n = s.unicode_len();
    let mut toks: Vec<String> = Vec::new();
    let mut i: usize = 0;
    while i < n
        invariant
            n == s@.len(),
            i <= n,
            toks.deep_view() + split_ws_from(s@, i as int) =~~= split_ws(s@),
        decreases n - i,
    {
        if is_space_char(s.get_char(i)) {
            i += 1;
        } else {
            proof {
                lemma_token_end(s@, i as int);
            }
            let ghost prev = toks.deep_view();
            let mut j = i + 1;
            while j < n && !is_space_char(s.get_char(j))
                invariant
                    n == s@.len(),
                    i < j <= n,
                    token_end(s@, i as int) == token_end(s@, j as int),
                decreases n - j,
            {
                j += 1;
            }
            proof {
                assert(token_end(s@, j as int) == j as int);
                assert(token_end(s@, i as int) == j as int);
            }
            let tok = s.substring_char(i, j).to_owned();
            toks.push(tok);
            proof {
                assert(toks.deep_view() =~~= prev + seq![s@.subrange(i as int, j as int)]);
                assert(split_ws_from(s@, i as int) =~~= seq![s@.subrange(i as int, j as int)]
                    + split_ws_from(s@, j as int));
            }
            i = j;
        }
    }
    proof {
        assert(split_ws_from(s@, n as int) =~~= Seq::empty());
        assert(toks.deep_view() =~~= split_ws(s@));
    }
    toks
}

} // verus!
