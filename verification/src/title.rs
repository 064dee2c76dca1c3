//! Session titles: what a title is made of, and when one is shown.
use crate::collections::{add_item, empty};
use crate::protocol::{UserInput, UserInputView};
use crate::text::{
    CharClass, before_char, concat2, concat5, join, joined, joined_words_split, same, shortened,
    shortened_fits, split_words, take_until, trim, trim_end_of, trim_start_of, trimmed,
    truncate_chars, without_leading, without_trailing, words, words_are_words,
};
use vstd::prelude::*;

verus! {

pub const SESSION_TITLE_MAX_CHARS: usize = 60;

pub const SESSION_TITLE_PROMPT_MAX_CHARS: usize = 4000;

pub const SESSION_TITLE_INSTRUCTIONS: &'static str =
    "Generate a concise title for this coding session.

Rules:
- Return only the title text.
- Return the title in Simplified Chinese, even if the user wrote in another language.
- Use a short Chinese phrase, roughly 6 to 12 Chinese characters when possible.
- Do not quote the title.
- Do not copy the user's request verbatim.
- Keep technical identifiers like API, ACP, session/list, and file names unchanged when clearer.";

/// The name and the first message that a thread has stored.
#[derive(Debug, Clone, Default, PartialEq, Eq)]
pub struct ThreadTitleState {
    pub name: Option<String>,
    pub first_user_message: Option<String>,
}

#[verifier::ext_equal]
pub struct ThreadTitleStateView {
    pub name: Option<Seq<char>>,
    pub first_user_message: Option<Seq<char>>,
}

impl DeepView for ThreadTitleState {
    type V = ThreadTitleStateView;

    open spec fn deep_view(&self) -> ThreadTitleStateView {
        ThreadTitleStateView {
            name: self.name.deep_view(),
            first_user_message: self.first_user_message.deep_view(),
        }
    }
}

/// The text itself, unless it is blank.
pub fn non_empty_str(text: &str) -> (kept: Option<&str>)
    ensures
        kept.deep_view() == if trimmed(text@).len() > 0 {
            Some(text@)
        } else {
            None
        },
{
    if trim(text).is_empty() {
        None
    } else {
        Some(text)
    }
}

/// The request for a title: the instructions, the user's request and the answer.
pub open spec fn title_prompt(prompt: Seq<char>, response: Option<Seq<char>>) -> Seq<char> {
    let answer = match response {
        Some(text) => shortened(text, SESSION_TITLE_PROMPT_MAX_CHARS as nat),
        None => Seq::empty(),
    };
    SESSION_TITLE_INSTRUCTIONS@ + "\n\n<user_request>\n"@ + shortened(
        prompt,
        SESSION_TITLE_PROMPT_MAX_CHARS as nat,
    ) + "\n</user_request>\n\n<assistant_response>\n"@ + answer + "\n</assistant_response>"@
}

pub fn build_session_title_prompt(prompt_text: &str, response_text: Option<&str>) -> (prompt:
    String)
    ensures
        prompt@ == title_prompt(prompt_text@, response_text.deep_view()),
{
    let request = truncate_for_title_prompt(prompt_text);
    let answer = match response_text {
        Some(text) => truncate_for_title_prompt(text),
        None => String::new(),
    };
    let start = concat5(
        SESSION_TITLE_INSTRUCTIONS,
        "\n\n<user_request>\n",
        request.as_str(),
        "\n</user_request>\n\n<assistant_response>\n",
        answer.as_str(),
    );
    concat2(start.as_str(), "\n</assistant_response>")
}

pub fn truncate_for_title_prompt(text: &str) -> (short: String)
    ensures
        short@ == shortened(text@, SESSION_TITLE_PROMPT_MAX_CHARS as nat),
{
    truncate_chars(text, SESSION_TITLE_PROMPT_MAX_CHARS)
}

/// The texts among the items, trimmed, without the blank ones.
pub open spec fn prompt_texts(items: Seq<UserInputView>) -> Seq<Seq<char>>
    decreases items.len(),
{
    if items.len() == 0 {
        seq![]
    } else {
        let rest = prompt_texts(items.drop_last());
        match items.last() {
            UserInputView::Text(text) => if trimmed(text).len() > 0 {
                rest.push(trimmed(text))
            } else {
                rest
            },
            UserInputView::Other(_) => rest,
        }
    }
}

/// What the user wrote, one text to a line.
pub open spec fn prompt_text(items: Seq<UserInputView>) -> Option<Seq<char>> {
    let text = joined(prompt_texts(items), "\n"@);
    if text.len() > 0 {
        Some(text)
    } else {
        None
    }
}

pub fn prompt_text_from_items(items: &Vec<UserInput>) -> (text: Option<String>)
    ensures
        text.deep_view() == prompt_text(items.deep_view()),
{
    let mut texts: Vec<String> = empty();
    let ghost all = items.deep_view();
    for i in 0..items.len()
        invariant
            all == items.deep_view(),
            texts.deep_view() == prompt_texts(all.take(i as int)),
    {
        assert(all.take(i + 1).drop_last() =~= all.take(i as int));
        if let UserInput::Text(text) = &items[i] {
            let text = trim(text.as_str());
            if !text.is_empty() {
                add_item(&mut texts, text.to_owned());
            }
        }
    }
    assert(all.take(all.len() as int) =~= all);
    let text = join(&texts, "\n");
    if text.as_str().is_empty() {
        None
    } else {
        Some(text)
    }
}

/// The first line that is not blank, trimmed; empty if all lines are blank.
pub open spec fn first_line(text: Seq<char>) -> Seq<char> {
    trimmed(before_char(without_leading(text, CharClass::White), '\n'))
}

/// A title without the marks around it: quotes at both ends, then full stops at the end.
pub open spec fn unquoted(line: Seq<char>) -> Seq<char> {
    trimmed(
        without_trailing(
            without_trailing(without_leading(line, CharClass::Quote), CharClass::Quote),
            CharClass::FullStop,
        ),
    )
}

/// What is left of a suggested title before it is shortened.
pub open spec fn bare_title(title: Seq<char>) -> Seq<char> {
    unquoted(first_line(title))
}

/// The words of a text, one space apart.
pub open spec fn canonical_title(text: Seq<char>) -> Seq<char> {
    joined(words(text), " "@)
}

/// The title that a suggestion stands for: none where nothing is left of it, or where it only
/// repeats the prompt.
pub open spec fn normalized_title(
    title: Seq<char>,
    prompt: Option<Seq<char>>,
) -> Option<Seq<char>> {
    let bare = bare_title(title);
    if bare.len() == 0 {
        None
    } else if prompt is Some && canonical_title(bare) == canonical_title(prompt->Some_0) {
        None
    } else {
        Some(shortened(bare, SESSION_TITLE_MAX_CHARS as nat))
    }
}

pub fn normalize_session_title(title: &str, prompt_text: Option<&str>) -> (normal: Option<String>)
    ensures
        normal.deep_view() == normalized_title(title@, prompt_text.deep_view()),
{
    let line = trim(take_until(trim_start_of(title, CharClass::White), '\n'));
    let inner = trim_end_of(trim_start_of(line, CharClass::Quote), CharClass::Quote);
    let bare = trim(trim_end_of(inner, CharClass::FullStop));
    if bare.is_empty() {
        return None;
    }
    if let Some(prompt) = prompt_text {
        if equivalent_title_text(bare, prompt) {
            return None;
        }
    }
    Some(truncate_chars(bare, SESSION_TITLE_MAX_CHARS))
}

pub fn equivalent_title_text(left: &str, right: &str) -> (equal: bool)
    ensures
        equal == (canonical_title(left@) == canonical_title(right@)),
{
    let left = canonical_title_text(left);
    let right = canonical_title_text(right);
    same(left.as_str(), right.as_str())
}

pub fn canonical_title_text(text: &str) -> (canonical: String)
    ensures
        canonical@ == canonical_title(text@),
{
    let parts = split_words(text);
    join(&parts, " ")
}

/// A title is never empty and never longer than the limit, and it is made of the suggestion's
/// first line: all of it, or its beginning and dots.
pub proof fn normalized_title_fits(title: Seq<char>, prompt: Option<Seq<char>>)
    ensures
        normalized_title(title, prompt) matches Some(normal) ==> {
            &&& 0 < normal.len() <= SESSION_TITLE_MAX_CHARS
            &&& normal == shortened(bare_title(title), SESSION_TITLE_MAX_CHARS as nat)
            &&& bare_title(title).len() <= SESSION_TITLE_MAX_CHARS ==> normal == bare_title(title)
        },
{
    shortened_fits(bare_title(title), SESSION_TITLE_MAX_CHARS as nat);
}

/// A text in canonical form is its own canonical form.
pub proof fn canonical_title_is_canonical(text: Seq<char>)
    ensures
        canonical_title(canonical_title(text)) == canonical_title(text),
{
    words_are_words(text);
    joined_words_split(words(text));
}

/// A suggestion that has the words of the prompt is no title, however they are spaced; and of two
/// prompts with the same words it does not matter which one is compared.
pub proof fn title_never_repeats_prompt(title: Seq<char>, prompt: Seq<char>, other: Seq<char>)
    ensures
        words(bare_title(title)) == words(prompt) ==> normalized_title(title, Some(prompt)) is None,
        words(prompt) == words(other) ==> normalized_title(title, Some(prompt))
            == normalized_title(title, Some(other)),
        normalized_title(title, Some(prompt)) is Some ==> words(bare_title(title)) != words(prompt),
{
}

/// The request for a title is bounded: however long the prompt and the answer are, it holds no
/// more of each than the limit.
pub proof fn title_prompt_is_bounded(prompt: Seq<char>, response: Option<Seq<char>>)
    ensures
        title_prompt(prompt, response).len() <= title_prompt(Seq::empty(), None).len() + 2
            * SESSION_TITLE_PROMPT_MAX_CHARS,
{
    shortened_fits(prompt, SESSION_TITLE_PROMPT_MAX_CHARS as nat);
    match response {
        Some(text) => {
            shortened_fits(text, SESSION_TITLE_PROMPT_MAX_CHARS as nat);
        },
        None => {},
    }
}

} // verus!
