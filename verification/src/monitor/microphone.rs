//! The microphone: in use while an input source of the sound server is
//! running.
use vstd::prelude::*;
use crate::text::chars_of;

verus! {

/// Whether `pattern` stands in `text` at position `at`, within the part of
/// the text that ends before `end`.
pub open spec fn occurs_at(text: Seq<char>, pattern: Seq<char>, at: int, end: int) -> bool {
    &&& 0 <= at
    &&& at + pattern.len() <= end <= text.len()
    &&& forall|k: int| 0 <= k < pattern.len() ==> text[at + k] == #[trigger] pattern[k]
}

/// Whether `pattern` occurs in the part of `text` from `start` up to `end`.
pub open spec fn occurs_within(text: Seq<char>, pattern: Seq<char>, start: int, end: int) -> bool {
    exists|at: int| start <= at && #[trigger] occurs_at(text, pattern, at, end)
}

/// Whether the part of `text` from `start` up to `end` is a line: it holds
/// no line feed, it begins at the start of the text or behind a line feed,
/// and it ends at the end of the text or before a line feed.
pub open spec fn is_line(text: Seq<char>, start: int, end: int) -> bool {
    &&& 0 <= start <= end <= text.len()
    &&& start == 0 || text[start - 1] == '\n'
    &&& end == text.len() || text[end] == '\n'
    &&& forall|k: int| start <= k < end ==> #[trigger] text[k] != '\n'
}

/// Whether the line from `start` up to `end` names a running input source.
pub open spec fn names_running_input(text: Seq<char>, start: int, end: int) -> bool {
    occurs_within(text, "RUNNING"@, start, end) && occurs_within(text, "input"@, start, end)
}

/// Whether a listing of the sound server's sources has a line that names a
/// running input source.
pub open spec fn microphone_in_use(listing: Seq<char>) -> bool {
    exists|start: int, end: int|
        #[trigger] is_line(listing, start, end) && names_running_input(listing, start, end)
}

fn stands_at(text: &Vec<char>, pattern: &Vec<char>, at: usize, end: usize) -> (found: bool)
    requires
        end <= text.len(),
    ensures
        found == occurs_at(text@, pattern@, at as int, end as int),
{
    if pattern.len() > end || at > end - pattern.len() {
        return false;
    }
    let mut k: usize = 0;
    while k < pattern.len()
        invariant
            k <= pattern.len(),
            at + pattern.len() <= end <= text.len(),
            forall|j: int| 0 <= j < k ==> text@[at + j] == #[trigger] pattern@[j],
        decreases pattern.len() - k,
    {
        if text[at + k] != pattern[k] {
            assert(text@[at + k] != pattern@[k as int]);
            return false;
        }
        k += 1;
    }
    true
}

fn found_within(text: &Vec<char>, pattern: &Vec<char>, start: usize, end: usize) -> (found: bool)
    requires
        start <= end <= text.len(),
    ensures
        found == occurs_within(text@, pattern@, start as int, end as int),
{
    let mut at: usize = start;
    while at < end
        invariant
            start <= at <= end,
            end <= text.len(),
            forall|a: int| start <= a < at ==> !#[trigger] occurs_at(text@, pattern@, a, end as int),
        decreases end - at,
    {
        if stands_at(text, pattern, at, end) {
            return true;
        }
        at += 1;
    }
    stands_at(text, pattern, end, end)
}

/// Whether the microphone is in use, from what `pactl list short sources`
/// printed: some line of it holds both "RUNNING" and "input".
pub fn is_microphone_in_use(listing: &str) -> (in_use: bool)
    ensures
        in_use == microphone_in_use(listing@),
{
    let text = chars_of(listing);
    let running = chars_of("RUNNING");
    let input = chars_of("input");
    let mut start: usize = 0;
    loop
        invariant
            text@ == listing@,
            running@ == "RUNNING"@,
            input@ == "input"@,
            start <= text.len(),
            start == 0 || text@[start - 1] == '\n',
            forall|s: int, e: int|
                s < start && #[trigger] is_line(text@, s, e) ==> !names_running_input(text@, s, e),
        decreases text.len() - start,
    {
        let mut end: usize = start;
        while end < text.len() && text[end] != '\n'
            invariant
                start <= end <= text.len(),
                forall|k: int| start <= k < end ==> #[trigger] text@[k] != '\n',
            decreases text.len() - end,
        {
            end += 1;
        }
        assert(is_line(text@, start as int, end as int));
        if found_within(&text, &running, start, end) && found_within(&text, &input, start, end) {
            return true;
        }
        assert forall|s: int, e: int|
            s <= end && #[trigger] is_line(text@, s, e) implies !names_running_input(text@, s, e) by {
            if s == start {
                if e < end {
                    assert(text@[e] != '\n');
                } else if e > end {
                    assert(text@[end as int] != '\n');
                }
            } else if s > start {
                assert(text@[s - 1] != '\n');
            }
        }
        if end == text.len() {
            assert forall|s: int, e: int| #[trigger] is_line(text@, s, e) implies !names_running_input(
                text@,
                s,
                e,
            ) by {}
            return false;
        }
        start = end + 1;
    }
}

} // verus!
