use vstd::prelude::*;
use crate::text::{is_slice_of, trim_text, trimmed};

verus! {

/// The three backticks that open and close a markdown code block.
pub open spec fn fence() -> Seq<char> {
    seq!['`', '`', '`']
}

/// `s` holds a fence starting at position `i`.
pub open spec fn fence_at(s: Seq<char>, i: int) -> bool {
    0 <= i && i + 3 <= s.len() && s.subrange(i, i + 3) == fence()
}

/// `s` holds an opening and a later, non-overlapping closing fence.
pub open spec fn has_fenced_block(s: Seq<char>) -> bool {
    exists|i: int, j: int| i + 3 <= j && #[trigger] fence_at(s, i) && #[trigger] fence_at(s, j)
}

/// The content of the first fenced block of `s` (the language tag on the
/// opening fence excluded), as the fence pattern's capture group finds it.
pub uninterp spec fn fenced_content(s: Seq<char>) -> Option<Seq<char>>;

/// Leftmost match of ```` ```(?:\w+\n)?([\s\S]*?)``` ````: an opening fence,
/// an optional language tag line, and the shortest content up to the next
/// fence.
pub const FENCE_PATTERN: &'static str = "```(?:\\w+\\n)?([\\s\\S]*?)```";

/// Relies on regex::Regex::new and regex::Regex::captures: compiles the fence
/// pattern and returns capture group 1 of its leftmost match. Any match spans
/// two non-overlapping fences, and the group is a contiguous part of `s`.
#[verifier::external_body]
fn first_fenced_content(s: &str) -> (r: Option<&str>)
    ensures
        match r {
            Some(c) => fenced_content(s@) == Some(c@),
            None => fenced_content(s@) is None,
        },
        !has_fenced_block(s@) ==> r is None,
        r matches Some(c) ==> is_slice_of(c@, s@),
{
    let re = regex::Regex::new(FENCE_PATTERN).ok()?;
    re.captures(s)?.get(1).map(|m| m.as_str())
}

/// What sanitising `s` yields: the trimmed content of its first fenced block,
/// or `s` itself where it holds none.
pub open spec fn sanitized(s: Seq<char>) -> Seq<char> {
    match fenced_content(s) {
        Some(c) => trimmed(c),
        None => s,
    }
}

/// Strips markdown code fencing from generated text. Never fails and does not
/// check that the result is JSON.
pub fn remove_markdown(input: &str) -> (r: &str)
    ensures
        r@ == sanitized(input@),
        !has_fenced_block(input@) ==> r@ == input@,
{
    match first_fenced_content(input) {
        Some(content) => trim_text(content),
        None => input,
    }
}

} // verus!
