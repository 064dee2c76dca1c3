//! What the client's answer carries besides the chosen option.
use crate::collections::{StringMap, add_item, empty, one};
use crate::json::{Json, JsonView, field, get_field, get_text, text_field};
use crate::permissions::{
    PermissionOutcome, PermissionOutcomeView, PermissionResponse, PermissionResponseView,
    ResolvedUserInputAnswer, ResolvedUserInputAnswerView,
};
use crate::protocol::{ReviewDecision, ReviewDecisionView};
use crate::text::{trim, trimmed};
use vstd::prelude::*;

verus! {

pub const PERMISSION_GUIDANCE_META_KEY: &'static str = "kodex.ai/permissionGuidance";

pub const PERMISSION_INPUT_META_KEY: &'static str = "kodex.ai/permissionInput";

pub const USER_INPUT_ANSWERS_META_KEY: &'static str = "kodex.ai/userInputAnswers";

/// `text` without white space at either end, unless nothing is left.
pub open spec fn non_blank(text: Option<Seq<char>>) -> Option<Seq<char>> {
    match text {
        Some(text) => if trimmed(text).len() > 0 {
            Some(trimmed(text))
        } else {
            None
        },
        None => None,
    }
}

/// The guidance that metadata holds.
pub open spec fn guidance_in(meta: Seq<(Seq<char>, JsonView)>) -> Option<Seq<char>> {
    non_blank(text_field(meta, PERMISSION_GUIDANCE_META_KEY@))
}

pub fn permission_guidance_from_meta(meta: &Vec<(String, Json)>) -> (guidance: Option<String>)
    ensures
        guidance.deep_view() == guidance_in(meta.deep_view()),
{
    match get_text(meta, PERMISSION_GUIDANCE_META_KEY) {
        Some(text) => {
            let guidance = trim(text.as_str());
            if guidance.is_empty() {
                None
            } else {
                Some(guidance.to_owned())
            }
        },
        None => None,
    }
}

/// The metadata of the chosen option.
pub open spec fn outcome_meta(outcome: PermissionOutcomeView) -> Option<
    Seq<(Seq<char>, JsonView)>,
> {
    match outcome {
        PermissionOutcomeView::Selected { meta, .. } => meta,
        PermissionOutcomeView::Cancelled => None,
    }
}

/// The guidance of an answer: its own, else that of the chosen option.
pub open spec fn response_guidance(response: PermissionResponseView) -> Option<Seq<char>> {
    let own = match response.meta {
        Some(meta) => guidance_in(meta),
        None => None,
    };
    match own {
        Some(guidance) => Some(guidance),
        None => match outcome_meta(response.outcome) {
            Some(meta) => guidance_in(meta),
            None => None,
        },
    }
}

pub fn permission_guidance_from_response(response: &PermissionResponse) -> (guidance: Option<
    String,
>)
    ensures
        guidance.deep_view() == response_guidance(response.deep_view()),
{
    if let Some(meta) = &response.meta {
        if let Some(guidance) = permission_guidance_from_meta(meta) {
            return Some(guidance);
        }
    }
    match &response.outcome {
        PermissionOutcome::Selected { meta, .. } => match meta {
            Some(meta) => permission_guidance_from_meta(meta),
            None => None,
        },
        PermissionOutcome::Cancelled => None,
    }
}

/// The texts among the items, trimmed, without the blank ones.
pub open spec fn non_blank_texts(items: Seq<JsonView>) -> Seq<Seq<char>>
    decreases items.len(),
{
    if items.len() == 0 {
        seq![]
    } else {
        match non_blank(items.last().text()) {
            Some(text) => non_blank_texts(items.drop_last()).push(text),
            None => non_blank_texts(items.drop_last()),
        }
    }
}

/// The answers that a value holds.
pub open spec fn answer_texts(value: JsonView) -> Seq<Seq<char>> {
    match value {
        JsonView::Array(items) => non_blank_texts(items),
        _ => seq![],
    }
}

/// The answers by question. A question without an answer is left out.
pub open spec fn answers_by_question(fields: Seq<(Seq<char>, JsonView)>) -> Map<
    Seq<char>,
    Seq<Seq<char>>,
>
    decreases fields.len(),
{
    if fields.len() == 0 {
        Map::empty()
    } else {
        let answers = answer_texts(fields.last().1);
        if answers.len() == 0 {
            answers_by_question(fields.drop_last())
        } else {
            answers_by_question(fields.drop_last()).insert(fields.last().0, answers)
        }
    }
}

/// The object that holds the answers: the field `answers`, else the value itself.
pub open spec fn answer_fields(value: JsonView) -> Option<Seq<(Seq<char>, JsonView)>> {
    match value {
        JsonView::Object(fields) => match field(fields, "answers"@) {
            Some(JsonView::Object(answers)) => Some(answers),
            _ => Some(fields),
        },
        _ => None,
    }
}

/// The answers that metadata holds, if it holds any.
pub open spec fn answers_in(meta: Seq<(Seq<char>, JsonView)>) -> Option<
    Map<Seq<char>, Seq<Seq<char>>>,
> {
    match field(meta, USER_INPUT_ANSWERS_META_KEY@) {
        Some(value) => match answer_fields(value) {
            Some(fields) => if answers_by_question(fields) == Map::<
                Seq<char>,
                Seq<Seq<char>>,
            >::empty() {
                None
            } else {
                Some(answers_by_question(fields))
            },
            None => None,
        },
        None => None,
    }
}

fn collect_texts(items: &Vec<Json>) -> (texts: Vec<String>)
    ensures
        texts.deep_view() == non_blank_texts(items.deep_view()),
{
    let mut texts: Vec<String> = empty();
    let ghost all = items.deep_view();
    for i in 0..items.len()
        invariant
            all == items.deep_view(),
            texts.deep_view() == non_blank_texts(all.take(i as int)),
    {
        assert(all.take(i + 1).drop_last() =~= all.take(i as int));
        if let Json::Text(text) = &items[i] {
            let text = trim(text.as_str());
            if !text.is_empty() {
                add_item(&mut texts, text.to_owned());
            }
        }
    }
    assert(all.take(all.len() as int) =~= all);
    texts
}

fn collect_answers(fields: &Vec<(String, Json)>) -> (answers: StringMap<Vec<String>>)
    ensures
        answers.deep_view() == answers_by_question(fields.deep_view()),
{
    let mut answers: StringMap<Vec<String>> = StringMap::new();
    let ghost all = fields.deep_view();
    for i in 0..fields.len()
        invariant
            all == fields.deep_view(),
            answers.deep_view() == answers_by_question(all.take(i as int)),
    {
        proof {
            assert(all.take(i + 1).drop_last() =~= all.take(i as int));
            crate::json::lemma_tree(fields@[i as int].1);
        }
        if let Json::Array(items) = &fields[i].1 {
            let texts = collect_texts(items);
            if texts.len() > 0 {
                answers.insert(fields[i].0.clone(), texts);
            }
        }
    }
    assert(all.take(all.len() as int) =~= all);
    answers
}

pub fn user_input_response_from_meta(meta: &Vec<(String, Json)>) -> (answers: Option<
    StringMap<Vec<String>>,
>)
    ensures
        answers.deep_view() == answers_in(meta.deep_view()),
{
    broadcast use crate::json::lemma_tree;

    match get_field(meta, USER_INPUT_ANSWERS_META_KEY) {
        Some(Json::Object(fields)) => {
            let answers = match get_field(fields, "answers") {
                Some(Json::Object(inner)) => collect_answers(inner),
                _ => collect_answers(fields),
            };
            if answers.is_empty() {
                None
            } else {
                Some(answers)
            }
        },
        _ => None,
    }
}

/// The answers of a response: its own, else those of the chosen option.
pub open spec fn response_answers(response: PermissionResponseView) -> Option<
    Map<Seq<char>, Seq<Seq<char>>>,
> {
    let own = match response.meta {
        Some(meta) => answers_in(meta),
        None => None,
    };
    match own {
        Some(answers) => Some(answers),
        None => match outcome_meta(response.outcome) {
            Some(meta) => answers_in(meta),
            None => None,
        },
    }
}

pub fn user_input_response_from_permission_response(response: &PermissionResponse) -> (answers:
    Option<StringMap<Vec<String>>>)
    ensures
        answers.deep_view() == response_answers(response.deep_view()),
{
    if let Some(meta) = &response.meta {
        if let Some(answers) = user_input_response_from_meta(meta) {
            return Some(answers);
        }
    }
    match &response.outcome {
        PermissionOutcome::Selected { meta, .. } => match meta {
            Some(meta) => user_input_response_from_meta(meta),
            None => None,
        },
        PermissionOutcome::Cancelled => None,
    }
}

pub fn empty_user_input_response() -> (answers: StringMap<Vec<String>>)
    ensures
        answers.deep_view() == Map::<Seq<char>, Seq<Seq<char>>>::empty(),
{
    StringMap::new()
}

/// The answer that a chosen option gives: a free answer is the guidance, where there is some.
pub open spec fn selected_answer(
    answer: ResolvedUserInputAnswerView,
    guidance: Option<Seq<char>>,
) -> Seq<char> {
    let fixed = match answer.answer {
        Some(text) => text,
        None => Seq::empty(),
    };
    if answer.use_guidance {
        match non_blank(guidance) {
            Some(text) => text,
            None => fixed,
        }
    } else {
        fixed
    }
}

pub open spec fn single_answer(
    answer: ResolvedUserInputAnswerView,
    guidance: Option<Seq<char>>,
) -> Map<Seq<char>, Seq<Seq<char>>> {
    map![answer.question_id => seq![selected_answer(answer, guidance)]]
}

pub fn user_input_response_from_answer(
    answer: &ResolvedUserInputAnswer,
    guidance: Option<String>,
) -> (answers: StringMap<Vec<String>>)
    ensures
        answers.deep_view() == single_answer(answer.deep_view(), guidance.deep_view()),
{
    let fixed = match &answer.answer {
        Some(text) => text.clone(),
        None => String::new(),
    };
    let mut selected = fixed;
    if answer.use_guidance {
        if let Some(text) = &guidance {
            let text = trim(text.as_str());
            if !text.is_empty() {
                selected = text.to_owned();
            }
        }
    }
    let mut answers: StringMap<Vec<String>> = StringMap::new();
    answers.insert(answer.question_id.clone(), one(selected));
    assert(answers.deep_view() =~= single_answer(answer.deep_view(), guidance.deep_view()));
    answers
}

/// Guidance becomes a further prompt only where the request was turned down for good.
pub open spec fn guidance_followup(
    decision: ReviewDecisionView,
    guidance: Option<Seq<char>>,
) -> Option<Seq<char>> {
    if decision is Abort || decision is TimedOut {
        guidance
    } else {
        None
    }
}

pub fn permission_guidance_followup(decision: &ReviewDecision, guidance: Option<String>) -> (
followup: Option<String>)
    ensures
        followup.deep_view() == guidance_followup(decision.deep_view(), guidance.deep_view()),
{
    match decision {
        ReviewDecision::Abort => guidance,
        ReviewDecision::TimedOut => guidance,
        _ => None,
    }
}

} // verus!
