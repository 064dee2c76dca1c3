//! What a prompt leads to.
use crate::client::{compaction_notice, context_compaction_started};
use crate::collections::one;
use crate::protocol::{
    Error, ErrorKind, ErrorKindView, ErrorView, Notification, NotificationView, Op, OpView,
    ReviewTarget, ReviewTargetView, UserInput, UserInputView,
};
use crate::text::{
    CharClass, first_word, is_white, is_word, leading_word, lemma_leading_word, lemma_word_then,
    same, strip_prefix, trim, trim_start_of, trimmed, trimmed_is_trimmed, without_leading,
};
use crate::title::{prompt_text, prompt_text_from_items};
use vstd::prelude::*;
use vstd::string::*;

verus! {

/// What a prompt leads to.
#[derive(Debug)]
pub enum PromptPlan {
    Submit { notice: Option<Notification>, op: Op, prompt_text: Option<String> },
    Logout,
}

#[verifier::ext_equal]
pub enum PromptPlanView {
    Submit { notice: Option<NotificationView>, op: OpView, prompt_text: Option<Seq<char>> },
    Logout,
}

impl DeepView for PromptPlan {
    type V = PromptPlanView;

    open spec fn deep_view(&self) -> PromptPlanView {
        match self {
            PromptPlan::Submit { notice, op, prompt_text } => PromptPlanView::Submit {
                notice: notice.deep_view(),
                op: op.deep_view(),
                prompt_text: prompt_text.deep_view(),
            },
            PromptPlan::Logout => PromptPlanView::Logout,
        }
    }
}

/// The slash command that a text begins with, and what follows it.
pub open spec fn slash_command(text: Seq<char>) -> Option<(Seq<char>, Seq<char>)> {
    if text.len() > 0 && text.first() == '/' && leading_word(text.drop_first()).len() > 0 {
        let name = leading_word(text.drop_first());
        Some((name, without_leading(text.skip(1 + name.len() as int), CharClass::White)))
    } else {
        None
    }
}

/// The slash command of a prompt: its first item decides.
pub open spec fn prompt_command(items: Seq<UserInputView>) -> Option<(Seq<char>, Seq<char>)> {
    if items.len() > 0 {
        match items[0] {
            UserInputView::Text(text) => slash_command(text),
            UserInputView::Other(_) => None,
        }
    } else {
        None
    }
}

pub fn extract_slash_command<'a>(items: &'a Vec<UserInput>) -> (command: Option<
    (&'a str, &'a str),
>)
    ensures
        command.deep_view() == prompt_command(items.deep_view()),
{
    if items.len() == 0 {
        return None;
    }
    match &items[0] {
        UserInput::Text(text) => match strip_prefix(text.as_str(), "/") {
            Some(rest) => {
                proof {
                    reveal_strlit("/");
                    assert("/"@ =~= seq!['/']);
                    assert(text@.subrange(0, 1)[0] == text@.first());
                    assert(rest@ =~= text@.drop_first());
                    lemma_leading_word(rest@);
                }
                let name = first_word(rest);
                if name.is_empty() {
                    return None;
                }
                let n: usize = rest.unicode_len();
                let m: usize = name.unicode_len();
                let tail = rest.substring_char(m, n);
                assert(tail@ =~= text@.skip(1 + m as int));
                Some((name, trim_start_of(tail, CharClass::White)))
            },
            None => {
                proof {
                    reveal_strlit("/");
                    if text@.len() > 0 && text@.first() == '/' {
                        assert("/"@ =~= seq!['/']);
                        assert("/"@.is_prefix_of(text@));
                    }
                }
                None
            },
        },
        UserInput::Other(_) => None,
    }
}

/// What a review command is to look at.
pub open spec fn review_target(instructions: Seq<char>) -> ReviewTargetView {
    if trimmed(instructions).len() == 0 {
        ReviewTargetView::UncommittedChanges
    } else {
        ReviewTargetView::Custom { instructions: trimmed(instructions) }
    }
}

pub open spec fn input_op(items: Seq<UserInputView>) -> OpView {
    OpView::UserInput { items }
}

/// What a prompt leads to: a slash command that is known does what it says, anything else is
/// submitted as it is. `init_prompt` is what `/init` submits.
pub open spec fn prompt_plan(items: Seq<UserInputView>, init_prompt: Seq<char>) -> PromptPlanView {
    let text = prompt_text(items);
    let submit = |op: OpView| PromptPlanView::Submit { notice: None, op, prompt_text: text };
    match prompt_command(items) {
        Some((name, rest)) => if name == "compact"@ {
            PromptPlanView::Submit {
                notice: Some(compaction_notice()),
                op: OpView::Compact,
                prompt_text: text,
            }
        } else if name == "init"@ {
            submit(input_op(seq![UserInputView::Text(init_prompt)]))
        } else if name == "review"@ {
            submit(OpView::Review { target: review_target(rest) })
        } else if name == "review-branch"@ && rest.len() > 0 {
            submit(
                OpView::Review { target: ReviewTargetView::BaseBranch { branch: trimmed(rest) } },
            )
        } else if name == "review-commit"@ && rest.len() > 0 {
            submit(
                OpView::Review {
                    target: ReviewTargetView::Commit { sha: trimmed(rest), title: None },
                },
            )
        } else if name == "logout"@ {
            PromptPlanView::Logout
        } else {
            submit(input_op(items))
        },
        None => submit(input_op(items)),
    }
}

pub fn handle_prompt(items: Vec<UserInput>, init_prompt: &str) -> (plan: PromptPlan)
    ensures
        plan.deep_view() == prompt_plan(items.deep_view(), init_prompt@),
{
    let prompt_text = prompt_text_from_items(&items);
    let mut notice: Option<Notification> = None;
    let mut prepared: Option<Op> = None;
    if let Some((name, rest)) = extract_slash_command(&items) {
        if same(name, "compact") {
            notice = Some(context_compaction_started());
            prepared = Some(Op::Compact);
        } else if same(name, "init") {
            prepared =
            Some(Op::UserInput { items: one(UserInput::Text(init_prompt.to_owned())) });
        } else if same(name, "review") {
            let instructions = trim(rest);
            let target = if instructions.is_empty() {
                ReviewTarget::UncommittedChanges
            } else {
                ReviewTarget::Custom { instructions: instructions.to_owned() }
            };
            prepared = Some(Op::Review { target });
        } else if same(name, "review-branch") && !rest.is_empty() {
            prepared =
            Some(
                Op::Review { target: ReviewTarget::BaseBranch { branch: trim(rest).to_owned() } },
            );
        } else if same(name, "review-commit") && !rest.is_empty() {
            prepared =
            Some(
                Op::Review {
                    target: ReviewTarget::Commit { sha: trim(rest).to_owned(), title: None },
                },
            );
        } else if same(name, "logout") {
            return PromptPlan::Logout;
        }
    }
    let op = match prepared {
        Some(op) => op,
        None => Op::UserInput { items },
    };
    PromptPlan::Submit { notice, op, prompt_text }
}

/// The error that asks the client to log in.
pub fn auth_required() -> (error: Error)
    ensures
        error.deep_view() == (ErrorView { kind: ErrorKindView::AuthRequired, data: None }),
{
    Error { kind: ErrorKind::AuthRequired, data: None }
}

/// The further prompt that guidance becomes, unless it is blank.
pub open spec fn guidance_prompt(guidance: Seq<char>) -> Option<OpView> {
    if trimmed(guidance).len() == 0 {
        None
    } else {
        Some(input_op(seq![UserInputView::Text(trimmed(guidance))]))
    }
}

/// The operation for guidance, with the text that its turn starts from.
pub fn submit_permission_guidance_followup(guidance: &str) -> (followup: Option<
    (Op, Option<String>),
>)
    ensures
        match followup {
            Some((op, text)) => guidance_prompt(guidance@) == Some(op.deep_view())
                && text.deep_view() == prompt_text(
                seq![UserInputView::Text(trimmed(guidance@))],
            ),
            None => guidance_prompt(guidance@) is None,
        },
{
    let guidance = trim(guidance);
    if guidance.is_empty() {
        return None;
    }
    let items = one(UserInput::Text(guidance.to_owned()));
    let text = prompt_text_from_items(&items);
    Some((Op::UserInput { items }, text))
}

/// A slash command is read as it was written: its name, and what follows the space.
pub proof fn slash_command_is_read_back(name: Seq<char>, rest: Seq<char>)
    requires
        is_word(name),
    ensures
        slash_command("/"@ + name) == Some((name, Seq::<char>::empty())),
        slash_command("/"@ + name + " "@ + rest) == Some(
            (name, without_leading(rest, CharClass::White)),
        ),
{
    reveal_strlit("/");
    reveal_strlit(" ");
    let tail = " "@ + rest;
    let text = "/"@ + name + " "@ + rest;
    assert(text.drop_first() =~= name + tail);
    assert(is_white(tail.first()));
    lemma_word_then(name, tail);
    assert(text.skip(1 + name.len() as int) =~= tail);
    assert(tail.drop_first() =~= rest);
    let bare = "/"@ + name;
    assert(bare.drop_first() =~= name + Seq::<char>::empty());
    lemma_word_then(name, Seq::empty());
    assert(bare.skip(1 + name.len() as int) =~= Seq::<char>::empty());
}

/// Only `/logout` logs out, only `/compact` is announced, and what is no command is submitted as
/// it was written.
pub proof fn prompt_does_what_it_says(items: Seq<UserInputView>, init_prompt: Seq<char>)
    ensures
        prompt_plan(items, init_prompt) is Logout <==> (prompt_command(items) matches Some(
            (name, _),
        ) && name == "logout"@),
        prompt_plan(items, init_prompt) matches PromptPlanView::Submit {
            notice,
            op,
            prompt_text: text,
        }
            ==> {
            &&& text == prompt_text(items)
            &&& notice is Some <==> op == OpView::Compact
            &&& prompt_command(items) is None ==> op == input_op(items)
        },
{
    reveal_strlit("logout");
    reveal_strlit("compact");
    reveal_strlit("init");
    reveal_strlit("review");
    reveal_strlit("review-branch");
    reveal_strlit("review-commit");
    assert("logout"@.len() == 6 && "compact"@.len() == 7 && "init"@.len() == 4);
    assert("review"@.len() == 6 && "review"@[0] == 'r' && "logout"@[0] == 'l');
    assert("review-branch"@.len() == 13 && "review-commit"@.len() == 13);
}

/// Guidance is submitted without the white space around it, and only where it says something.
pub proof fn guidance_is_submitted_trimmed(guidance: Seq<char>)
    ensures
        guidance_prompt(guidance) is None <==> trimmed(guidance).len() == 0,
        guidance_prompt(guidance) == guidance_prompt(trimmed(guidance)),
{
    trimmed_is_trimmed(guidance);
}

} // verus!
