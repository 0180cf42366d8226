//! Searching an argument vector: where the first token of a given shape
//! stands.
//!
//! Each search returns the index of the first token that fits, or the number
//! of tokens when none does, and is stated with
//! [`first_index`](crate::text::first_index) over the tokens' characters.

use crate::text::{
    chars_of, contains_chars, first_index, is_substring, lemma_first_index, lemma_first_index_is,
    matches_at,
};
use vstd::prelude::*;

verus! {

/// The predicate "is exactly the text `t`".
pub open spec fn is_text(t: Seq<char>) -> spec_fn(Seq<char>) -> bool {
    |x: Seq<char>| x == t
}

/// The predicate "is exactly `a` or exactly `b`".
pub open spec fn is_either(a: Seq<char>, b: Seq<char>) -> spec_fn(Seq<char>) -> bool {
    |x: Seq<char>| x == a || x == b
}

/// The predicate "begins with `prefix`".
pub open spec fn has_prefix(prefix: Seq<char>) -> spec_fn(Seq<char>) -> bool {
    |x: Seq<char>| prefix.is_prefix_of(x)
}

/// The predicate "holds `part` somewhere inside".
pub open spec fn holds(part: Seq<char>) -> spec_fn(Seq<char>) -> bool {
    |x: Seq<char>| is_substring(part, x)
}

/// Index of the first token equal to `token`.
pub fn position_of_token(tokens: &Vec<String>, token: &str) -> (at: usize)
    ensures
        at == first_index(tokens.deep_view(), is_text(token@)),
{
    let wanted = token.to_owned();
    let mut i: usize = 0;
    while i < tokens.len() && tokens[i] != wanted
        invariant
            i <= tokens.len(),
            wanted@ == token@,
            forall|j: int| 0 <= j < i ==> tokens.deep_view()[j] != token@,
        decreases tokens.len() - i,
    {
        i += 1;
    }
    proof {
        lemma_first_index_is(tokens.deep_view(), is_text(token@), i as int);
    }
    i
}

/// Index of the first token equal to `a` or to `b`.
pub fn position_of_either(tokens: &Vec<String>, a: &str, b: &str) -> (at: usize)
    ensures
        at == first_index(tokens.deep_view(), is_either(a@, b@)),
{
    let first = a.to_owned();
    let second = b.to_owned();
    let mut i: usize = 0;
    while i < tokens.len() && tokens[i] != first && tokens[i] != second
        invariant
            i <= tokens.len(),
            first@ == a@,
            second@ == b@,
            forall|j: int|
                0 <= j < i ==> tokens.deep_view()[j] != a@ && tokens.deep_view()[j] != b@,
        decreases tokens.len() - i,
    {
        i += 1;
    }
    proof {
        lemma_first_index_is(tokens.deep_view(), is_either(a@, b@), i as int);
    }
    i
}

/// Index of the first token that begins with `prefix`.
pub fn position_of_prefixed(tokens: &Vec<String>, prefix: &str) -> (at: usize)
    ensures
        at == first_index(tokens.deep_view(), has_prefix(prefix@)),
{
    let head = chars_of(prefix);
    let mut i: usize = 0;
    while i < tokens.len()
        invariant
            i <= tokens.len(),
            head@ == prefix@,
            forall|j: int| 0 <= j < i ==> !prefix@.is_prefix_of(tokens.deep_view()[j]),
        decreases tokens.len() - i,
    {
        let token = chars_of(tokens[i].as_str());
        if matches_at(&token, 0, &head) {
            proof {
                lemma_first_index_is(tokens.deep_view(), has_prefix(prefix@), i as int);
            }
            return i;
        }
        i += 1;
    }
    proof {
        lemma_first_index_is(tokens.deep_view(), has_prefix(prefix@), i as int);
    }
    i
}

/// Index of the first token in which `part` occurs.
pub fn position_holding(tokens: &Vec<String>, part: &str) -> (at: usize)
    ensures
        at == first_index(tokens.deep_view(), holds(part@)),
{
    let wanted = chars_of(part);
    let mut i: usize = 0;
    while i < tokens.len()
        invariant
            i <= tokens.len(),
            wanted@ == part@,
            forall|j: int| 0 <= j < i ==> !is_substring(part@, tokens.deep_view()[j]),
        decreases tokens.len() - i,
    {
        let token = chars_of(tokens[i].as_str());
        if contains_chars(&token, &wanted) {
            proof {
                lemma_first_index_is(tokens.deep_view(), holds(part@), i as int);
            }
            return i;
        }
        i += 1;
    }
    proof {
        lemma_first_index_is(tokens.deep_view(), holds(part@), i as int);
    }
    i
}

/// Whether some token equals `token`.
pub fn has_token(tokens: &Vec<String>, token: &str) -> (found: bool)
    ensures
        found == tokens.deep_view().contains(token@),
{
    let at = position_of_token(tokens, token);
    proof {
        lemma_first_index(tokens.deep_view(), is_text(token@));
    }
    at < tokens.len()
}

} // verus!
