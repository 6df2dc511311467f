//! Source text before tokenizing: comments are cut off.
use crate::text::text_of;
use vstd::prelude::*;

verus! {

/// Where the comment of `s` starts, scanning from `i` with `quoted` telling whether `i` lies
/// inside a string literal: at the first `;;` outside quotes, or at the end.
pub open spec fn comment_start(s: Seq<char>, i: int, quoted: bool) -> int
    decreases s.len() - i,
{
    if i >= s.len() || i < 0 {
        s.len() as int
    } else {
        let q = if s[i] == '"' {
            !quoted
        } else {
            quoted
        };
        if s[i] == ';' && !q && i + 1 < s.len() && s[i + 1] == ';' {
            i
        } else {
            comment_start(s, i + 1, q)
        }
    }
}

proof fn lemma_comment_start_bounds(s: Seq<char>, i: int, quoted: bool)
    requires
        0 <= i,
    ensures
        i <= comment_start(s, i, quoted) <= s.len() || (i > s.len() && comment_start(s, i, quoted)
            == s.len()),
    decreases s.len() - i,
{
    if i < s.len() {
        let q = if s[i] == '"' {
            !quoted
        } else {
            quoted
        };
        lemma_comment_start_bounds(s, i + 1, q);
    }
}

/// The line without its comment: everything from the first `;;` outside a string literal on
/// is dropped.
pub fn remove_after_double_semicolon(s: &str) -> (r: String)
    ensures
        r@ == s@.subrange(0, comment_start(s@, 0, false)),
{
    let n = s.unicode_len();
    let mut in_quotes = false;
    let mut i: usize = 0;
    proof {
        lemma_comment_start_bounds(s@, 0, false);
    }
    while i < n
        invariant
            n == s@.len(),
            i <= n,
            comment_start(s@, 0, false) == comment_start(s@, i as int, in_quotes),
        decreases n - i,
    {
        let c = s.get_char(i);
        if c == '"' {
            in_quotes = !in_quotes;
        }
        if c == ';' && !in_quotes && i + 1 < n && s.get_char(i + 1) == ';' {
            return text_of(s.substring_char(0, i));
        }
        i += 1;
    }
    text_of(s.substring_char(0, n))
}

} // verus!
