//! What a session tells its agent, and the title it is listed under.
use crate::command_safety::occurs_at;
use crate::text::{concat3, same, trim, trimmed, trimmed_is_trimmed};
use vstd::prelude::*;
use vstd::string::*;

verus! {

pub const KODEX_FILE_EDITING_DEVELOPER_INSTRUCTIONS: &'static str =
    "Edit files with the apply_patch tool, so that every change can be reviewed as a patch. Do not write files through shell redirection, inline scripts or in-place editing commands.";

pub const KODEX_ENGINEERING_DEVELOPER_RULES: &'static str =
    "Engineering rules:
- Do not guess APIs; consult the documentation first.
- Keep changes small and focused on the request.
- Check the result before reporting that it is done.";

/// Whether `needle` occurs in `text`.
pub open spec fn contains_text(text: Seq<char>, needle: Seq<char>) -> bool {
    exists|i: int| #[trigger] occurs_at(text, needle, i)
}

/// Whether `needle` occurs in `text`.
pub fn has_text(text: &str, needle: &str) -> (found: bool)
    ensures
        found == contains_text(text@, needle@),
{
    let n: usize = text.unicode_len();
    let m: usize = needle.unicode_len();
    let mut i: usize = 0;
    while i <= n && m <= n - i
        invariant
            n == text@.len(),
            m == needle@.len(),
            i <= n + 1,
            forall|k: int| 0 <= k < i ==> !#[trigger] occurs_at(text@, needle@, k),
        decreases n + 1 - i,
    {
        if same(text.substring_char(i, i + m), needle) {
            assert(occurs_at(text@, needle@, i as int));
            return true;
        }
        if i == n {
            return false;
        }
        i += 1;
    }
    false
}

/// The saved title of a session, unless it is blank or only repeats the first message.
pub open spec fn distinct_title(title: Seq<char>, first_message: Option<Seq<char>>) -> Option<
    Seq<char>,
> {
    if trimmed(title).len() == 0 {
        None
    } else if first_message is Some && trimmed(first_message->Some_0) == trimmed(title) {
        None
    } else {
        Some(trimmed(title))
    }
}

pub fn distinct_session_title(title: &str, first_user_message: Option<&str>) -> (distinct: Option<
    String,
>)
    ensures
        distinct.deep_view() == distinct_title(title@, first_user_message.deep_view()),
{
    let title = trim(title);
    if title.is_empty() {
        return None;
    }
    if let Some(message) = first_user_message {
        if same(trim(message), title) {
            return None;
        }
    }
    Some(title.to_owned())
}

/// `text` with `block` as its last paragraph, unless it already holds the block.
pub open spec fn with_block(text: Seq<char>, block: Seq<char>) -> Seq<char> {
    if contains_text(text, block) {
        text
    } else if text.len() == 0 {
        block
    } else {
        text + "\n\n"@ + block
    }
}

/// The developer instructions of a session: those given, followed by the two blocks that every
/// session has.
pub open spec fn merged_instructions(existing: Option<Seq<char>>) -> Seq<char> {
    let given = match existing {
        Some(text) => text,
        None => Seq::empty(),
    };
    with_block(
        with_block(given, KODEX_FILE_EDITING_DEVELOPER_INSTRUCTIONS@),
        KODEX_ENGINEERING_DEVELOPER_RULES@,
    )
}

fn add_block(text: String, block: &str) -> (whole: String)
    ensures
        whole@ == with_block(text@, block@),
{
    if has_text(text.as_str(), block) {
        text
    } else if text.as_str().is_empty() {
        block.to_owned()
    } else {
        concat3(text.as_str(), "\n\n", block)
    }
}

pub fn merge_kodex_developer_instructions(existing: Option<String>) -> (merged: Option<String>)
    ensures
        merged.deep_view() == Some(merged_instructions(existing.deep_view())),
{
    let given = match existing {
        Some(text) => text,
        None => String::new(),
    };
    let with_editing = add_block(given, KODEX_FILE_EDITING_DEVELOPER_INSTRUCTIONS);
    Some(add_block(with_editing, KODEX_ENGINEERING_DEVELOPER_RULES))
}

/// A text with a block holds the block, and begins with what it was before.
proof fn lemma_with_block(text: Seq<char>, block: Seq<char>)
    ensures
        contains_text(with_block(text, block), block),
        text.is_prefix_of(with_block(text, block)),
{
    let whole = with_block(text, block);
    if !contains_text(text, block) {
        let i = whole.len() - block.len();
        assert(whole.subrange(i, i + block.len()) =~= block);
        assert(occurs_at(whole, block, i));
    }
}

/// What occurs in a text occurs in every text that begins with it.
proof fn lemma_contains_in_longer(text: Seq<char>, longer: Seq<char>, needle: Seq<char>)
    requires
        text.is_prefix_of(longer),
        contains_text(text, needle),
    ensures
        contains_text(longer, needle),
{
    let i = choose|i: int| #[trigger] occurs_at(text, needle, i);
    assert(longer.subrange(i, i + needle.len()) =~= text.subrange(i, i + needle.len())) by {
        assert(longer.take(text.len() as int) =~= text);
    }
    assert(occurs_at(longer, needle, i));
}

/// The instructions of a session begin with those that were given and hold both blocks.
pub proof fn instructions_hold_what_they_must(existing: Option<Seq<char>>)
    ensures
        existing matches Some(text) ==> text.is_prefix_of(merged_instructions(existing)),
        contains_text(
            merged_instructions(existing),
            KODEX_FILE_EDITING_DEVELOPER_INSTRUCTIONS@,
        ),
        contains_text(merged_instructions(existing), KODEX_ENGINEERING_DEVELOPER_RULES@),
{
    let given = match existing {
        Some(text) => text,
        None => Seq::empty(),
    };
    let editing = with_block(given, KODEX_FILE_EDITING_DEVELOPER_INSTRUCTIONS@);
    let merged = merged_instructions(existing);
    lemma_with_block(given, KODEX_FILE_EDITING_DEVELOPER_INSTRUCTIONS@);
    lemma_with_block(editing, KODEX_ENGINEERING_DEVELOPER_RULES@);
    lemma_contains_in_longer(editing, merged, KODEX_FILE_EDITING_DEVELOPER_INSTRUCTIONS@);
    assert(given =~= merged.take(given.len() as int)) by {
        assert(editing.take(given.len() as int) =~= given);
        assert(merged.take(editing.len() as int) =~= editing);
        assert(merged.take(editing.len() as int).take(given.len() as int) =~= merged.take(
            given.len() as int,
        ));
    }
}

/// Instructions that hold both blocks stay as they are, so that merging twice is merging once.
pub proof fn instructions_are_merged_once(existing: Option<Seq<char>>, complete: Seq<char>)
    ensures
        contains_text(complete, KODEX_FILE_EDITING_DEVELOPER_INSTRUCTIONS@) && contains_text(
            complete,
            KODEX_ENGINEERING_DEVELOPER_RULES@,
        ) ==> merged_instructions(Some(complete)) == complete,
        merged_instructions(Some(merged_instructions(existing))) == merged_instructions(existing),
{
    instructions_hold_what_they_must(existing);
}

/// A title that is listed is not blank, has no white space around it, and is not the first
/// message.
pub proof fn listed_title_is_distinct(title: Seq<char>, first_message: Option<Seq<char>>)
    ensures
        distinct_title(title, first_message) matches Some(listed) ==> {
            &&& listed.len() > 0
            &&& trimmed(listed) == listed
            &&& first_message matches Some(message) ==> trimmed(message) != listed
        },
{
    trimmed_is_trimmed(title);
}

} // verus!
