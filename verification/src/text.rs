//! Text primitives: what it means for one text to begin, end or occur in
//! another, or to be cut at a separator, and executable functions that decide
//! each of these on `&str` values.
//!
//! Every contract is stated over the characters of a string (`Seq<char>`, the
//! view of `str` and `String`), never over its bytes.

use vstd::prelude::*;
use vstd::std_specs::iter::IteratorSpec;
use vstd::string::StrSliceExecFns;

verus! {

/// Index of the first element of `s` that satisfies `p`, or `s.len()` when no
/// element does.
pub open spec fn first_index<A>(s: Seq<A>, p: spec_fn(A) -> bool) -> int
    decreases s.len(),
{
    if s.len() == 0 {
        0
    } else if p(s[0]) {
        0
    } else {
        1 + first_index(s.drop_first(), p)
    }
}

/// The predicate "is the character `c`".
pub open spec fn is_char(c: char) -> spec_fn(char) -> bool {
    |x: char| x == c
}

/// Whether `part` stands in `s` at index `i`.
pub open spec fn occurs_at(part: Seq<char>, s: Seq<char>, i: int) -> bool {
    0 <= i && i + part.len() <= s.len() && s.subrange(i, i + part.len()) == part
}

/// Whether `part` occurs somewhere in `s` as a contiguous run of characters.
/// The empty text occurs in every text.
pub open spec fn is_substring(part: Seq<char>, s: Seq<char>) -> bool {
    exists|i: int| occurs_at(part, s, i)
}

/// The pieces of `s` between occurrences of `sep`, in order. A text without
/// `sep` is its own single piece, so the result is never empty; two adjacent
/// separators enclose an empty piece.
pub open spec fn fragments(s: Seq<char>, sep: char) -> Seq<Seq<char>>
    decreases s.len(),
{
    let i = first_index(s, is_char(sep));
    if 0 <= i < s.len() {
        seq![s.subrange(0, i)] + fragments(s.subrange(i + 1, s.len() as int), sep)
    } else {
        seq![s]
    }
}

/// The final segment of a `/`-separated path: what follows its last `/`, or
/// the whole path when it has none.
pub open spec fn last_segment(path: Seq<char>) -> Seq<char> {
    fragments(path, '/').last()
}

/// What follows the first occurrence of `c` in `s`; `None` when `c` does not
/// occur.
pub open spec fn after_first(s: Seq<char>, c: char) -> Option<Seq<char>> {
    let i = first_index(s, is_char(c));
    if i < s.len() {
        Some(s.subrange(i + 1, s.len() as int))
    } else {
        None
    }
}

/// `first_index` lies within `0..=s.len()`, nothing before it satisfies `p`,
/// and the element at it does, when there is one.
pub proof fn lemma_first_index<A>(s: Seq<A>, p: spec_fn(A) -> bool)
    ensures
        0 <= first_index(s, p) <= s.len(),
        forall|j: int| 0 <= j < first_index(s, p) ==> !p(#[trigger] s[j]),
        first_index(s, p) < s.len() ==> p(s[first_index(s, p)]),
    decreases s.len(),
{
    if s.len() > 0 && !p(s[0]) {
        let rest = s.drop_first();
        lemma_first_index(rest, p);
        assert forall|j: int| 0 <= j < first_index(s, p) implies !p(#[trigger] s[j]) by {
            if j > 0 {
                assert(s[j] == rest[j - 1]);
            }
        }
    }
}

/// An index `i` before which nothing satisfies `p`, and which is either the
/// end of `s` or the place of an element that satisfies `p`, is `first_index`.
pub proof fn lemma_first_index_is<A>(s: Seq<A>, p: spec_fn(A) -> bool, i: int)
    requires
        0 <= i <= s.len(),
        forall|j: int| 0 <= j < i ==> !p(#[trigger] s[j]),
        i < s.len() ==> p(s[i]),
    ensures
        first_index(s, p) == i,
{
    lemma_first_index(s, p);
    let f = first_index(s, p);
    if f < i {
        assert(!p(s[f]));
    } else if i < f {
        assert(p(s[i]));
    }
}

/// `first_index` points inside `s` exactly when some element of `s`
/// satisfies `p`.
pub proof fn lemma_first_index_finds<A>(s: Seq<A>, p: spec_fn(A) -> bool)
    ensures
        first_index(s, p) < s.len() <==> exists|j: int| 0 <= j < s.len() && p(#[trigger] s[j]),
{
    lemma_first_index(s, p);
}

/// A text in which `sep` does not occur is its own single fragment.
pub proof fn lemma_fragments_whole(s: Seq<char>, sep: char)
    requires
        forall|j: int| 0 <= j < s.len() ==> s[j] != sep,
    ensures
        fragments(s, sep) == seq![s],
{
    lemma_first_index_is(s, is_char(sep), s.len() as int);
}

/// Cutting at the first separator: when `sep` stands at `i` and nowhere
/// before, the fragments of `s` are `s[..i]` followed by the fragments of
/// `s[i + 1..]`.
pub proof fn lemma_fragments_step(s: Seq<char>, sep: char, i: int)
    requires
        0 <= i < s.len(),
        s[i] == sep,
        forall|j: int| 0 <= j < i ==> s[j] != sep,
    ensures
        fragments(s, sep) == seq![s.subrange(0, i)] + fragments(
            s.subrange(i + 1, s.len() as int),
            sep,
        ),
{
    lemma_first_index_is(s, is_char(sep), i);
}

/// The last fragment is what follows the last separator: with `k` the index
/// of the last `sep` in `s`, or `-1` when there is none, it is `s[k + 1..]`.
pub proof fn lemma_last_fragment(s: Seq<char>, sep: char, k: int)
    requires
        -1 <= k < s.len(),
        k >= 0 ==> s[k] == sep,
        forall|j: int| k < j < s.len() ==> s[j] != sep,
    ensures
        fragments(s, sep).len() >= 1,
        fragments(s, sep).last() == s.subrange(k + 1, s.len() as int),
    decreases s.len(),
{
    let p = is_char(sep);
    lemma_first_index(s, p);
    let i = first_index(s, p);
    if i < s.len() {
        assert(p(s[i]));
        assert(i <= k);
        let rest = s.subrange(i + 1, s.len() as int);
        lemma_last_fragment(rest, sep, k - i - 1);
        assert(rest.subrange(k - i, rest.len() as int) =~= s.subrange(k + 1, s.len() as int));
    } else {
        if k >= 0 {
            assert(!p(s[k]));
        }
        assert(s.subrange(0, s.len() as int) =~= s);
    }
}

/// The characters of `s`, in order.
pub fn chars_of(s: &str) -> (chars: Vec<char>)
    ensures
        chars@ == s@,
{
    let mut chars: Vec<char> = Vec::new();
    for c in it: s.chars()
        invariant
            chars@ == it.seq().take(it.index() as int),
            it.seq() == s@,
    {
        chars.push(c);
    }
    chars
}

/// Whether `part` stands in `text` at index `at`.
pub fn matches_at(text: &Vec<char>, at: usize, part: &Vec<char>) -> (found: bool)
    ensures
        found == occurs_at(part@, text@, at as int),
{
    if part.len() > text.len() || at > text.len() - part.len() {
        return false;
    }
    let mut k: usize = 0;
    while k < part.len()
        invariant
            k <= part.len(),
            at + part.len() <= text.len(),
            forall|j: int| 0 <= j < k ==> text@[at + j] == part@[j],
        decreases part.len() - k,
    {
        if text[at + k] != part[k] {
            assert(text@.subrange(at as int, at + part.len())[k as int] != part@[k as int]);
            return false;
        }
        k += 1;
    }
    assert(text@.subrange(at as int, at + part.len()) =~= part@);
    true
}

/// Whether two strings hold the same characters.
pub fn same_text(a: &str, b: &str) -> (same: bool)
    ensures
        same == (a@ == b@),
{
    let x = chars_of(a);
    let y = chars_of(b);
    if x.len() != y.len() {
        return false;
    }
    assert(x@.subrange(0, x.len() as int) =~= x@);
    matches_at(&x, 0, &y)
}

/// Whether `s` begins with `prefix`.
pub fn starts_with(s: &str, prefix: &str) -> (found: bool)
    ensures
        found == prefix@.is_prefix_of(s@),
{
    let text = chars_of(s);
    let head = chars_of(prefix);
    matches_at(&text, 0, &head)
}

/// Whether `s` ends with `suffix`.
pub fn ends_with(s: &str, suffix: &str) -> (found: bool)
    ensures
        found == suffix@.is_suffix_of(s@),
{
    let text = chars_of(s);
    let tail = chars_of(suffix);
    if tail.len() > text.len() {
        return false;
    }
    matches_at(&text, text.len() - tail.len(), &tail)
}

/// Index of the first `c` in `chars`, or `chars.len()` when there is none.
pub fn position_of(chars: &Vec<char>, c: char) -> (at: usize)
    ensures
        at == first_index(chars@, is_char(c)),
{
    let mut i: usize = 0;
    while i < chars.len() && chars[i] != c
        invariant
            i <= chars.len(),
            forall|j: int| 0 <= j < i ==> chars@[j] != c,
        decreases chars.len() - i,
    {
        i += 1;
    }
    proof {
        lemma_first_index_is(chars@, is_char(c), i as int);
    }
    i
}

/// Whether `part` occurs in `text`.
pub fn contains_chars(text: &Vec<char>, part: &Vec<char>) -> (found: bool)
    ensures
        found == is_substring(part@, text@),
{
    if part.len() > text.len() {
        return false;
    }
    let last: usize = text.len() - part.len();
    let mut i: usize = 0;
    loop
        invariant
            i <= last,
            last == text.len() - part.len(),
            forall|j: int| 0 <= j < i ==> !occurs_at(part@, text@, j),
        decreases last - i,
    {
        if matches_at(text, i, part) {
            return true;
        }
        if i == last {
            return false;
        }
        i += 1;
    }
}

/// Whether `part` occurs in `s`.
pub fn contains(s: &str, part: &str) -> (found: bool)
    ensures
        found == is_substring(part@, s@),
{
    let text = chars_of(s);
    let wanted = chars_of(part);
    contains_chars(&text, &wanted)
}

/// Cuts `s` at every `sep`.
pub fn split_on(s: &str, sep: char) -> (parts: Vec<String>)
    ensures
        parts.deep_view() == fragments(s@, sep),
{
    let chars = chars_of(s);
    let n: usize = chars.len();
    let mut parts: Vec<String> = Vec::new();
    let mut start: usize = 0;
    let mut i: usize = 0;
    assert(s@.subrange(0, n as int) =~= s@);
    assert(parts.deep_view() =~= Seq::<Seq<char>>::empty());
    while i < n
        invariant
            start <= i <= n,
            n == chars@.len(),
            chars@ == s@,
            forall|j: int| start <= j < i ==> s@[j] != sep,
            fragments(s@, sep) == parts.deep_view() + fragments(
                s@.subrange(start as int, n as int),
                sep,
            ),
        decreases n - i,
    {
        if chars[i] == sep {
            let piece = s.substring_char(start, i).to_owned();
            proof {
                let rest = s@.subrange(start as int, n as int);
                lemma_fragments_step(rest, sep, i - start);
                assert(rest.subrange(0, i - start) =~= s@.subrange(start as int, i as int));
                assert(rest.subrange(i - start + 1, rest.len() as int) =~= s@.subrange(
                    i + 1,
                    n as int,
                ));
            }
            let ghost before = parts.deep_view();
            parts.push(piece);
            assert(parts.deep_view() =~= before + seq![piece@]);
            start = i + 1;
        }
        i += 1;
    }
    let piece = s.substring_char(start, n).to_owned();
    proof {
        lemma_fragments_whole(s@.subrange(start as int, n as int), sep);
    }
    let ghost before = parts.deep_view();
    parts.push(piece);
    assert(parts.deep_view() =~= before + seq![piece@]);
    parts
}

/// The final segment of a `/`-separated path.
pub fn last_segment_of(path: &str) -> (segment: &str)
    ensures
        segment@ == last_segment(path@),
{
    let chars = chars_of(path);
    let n: usize = chars.len();
    let mut k: usize = n;
    while k > 0 && chars[k - 1] != '/'
        invariant
            k <= n,
            n == chars@.len(),
            forall|j: int| k <= j < n ==> chars@[j] != '/',
        decreases k,
    {
        k -= 1;
    }
    proof {
        lemma_last_fragment(path@, '/', k - 1);
    }
    path.substring_char(k, n)
}

/// What follows the first `c` in `s`, if `c` occurs.
pub fn split_after(s: &str, c: char) -> (rest: Option<&str>)
    ensures
        match rest {
            Some(r) => after_first(s@, c) == Some(r@),
            None => after_first(s@, c) is None,
        },
{
    let chars = chars_of(s);
    let at = position_of(&chars, c);
    if at < chars.len() {
        Some(s.substring_char(at + 1, chars.len()))
    } else {
        None
    }
}

} // verus!
