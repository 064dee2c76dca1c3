//! Questions to the user as permission requests.
use crate::collections::{StringMap, add_item, empty, one};
use crate::events::{Question, QuestionOptionView, QuestionView};
use crate::json::{Json, JsonView};
use crate::permissions::{ResolvedUserInputAnswer, ResolvedUserInputAnswerView};
use crate::permissions::answers::PERMISSION_INPUT_META_KEY;
use crate::permissions::exec_options::{new_permission_option, permission_option};
use crate::protocol::{PermissionOption, PermissionOptionKind, PermissionOptionView};
use crate::text::{
    concat2, concat3, concat4, decimal, decimal_digits, decimal_digits_differ, join, joined,
    lemma_decimal_digits, lemma_marked_parts, same, shortened, trim, trimmed, truncate_chars,
};
use vstd::prelude::*;

verus! {

/// The short form of a question: its header, else the question.
pub open spec fn question_label(question: QuestionView) -> Seq<char> {
    if trimmed(question.header).len() > 0 {
        trimmed(question.header)
    } else {
        trimmed(question.question)
    }
}

pub fn user_input_question_label(question: &Question) -> (label: String)
    ensures
        label@ == question_label(question.deep_view()),
{
    let header = trim(question.header.as_str());
    if !header.is_empty() {
        return header.to_owned();
    }
    trim(question.question.as_str()).to_owned()
}

/// The identifier of the option `option` of the question `question`, counted from 0.
pub open spec fn answer_id(question: nat, option: nat) -> Seq<char> {
    "answer:"@ + decimal_digits(question) + ":"@ + decimal_digits(option)
}

/// The identifier of the free answer to the question `question`.
pub open spec fn custom_answer_id(question: nat) -> Seq<char> {
    "answer:"@ + decimal_digits(question) + ":custom"@
}

/// The label of a choice: with several questions it names its question.
pub open spec fn choice_label(question: QuestionView, several: bool, choice: Seq<char>) -> Seq<
    char,
> {
    if several {
        shortened(question_label(question), 28) + ": "@ + choice
    } else {
        choice
    }
}

/// The fixed choices of a question.
pub open spec fn choices(question: QuestionView) -> Seq<QuestionOptionView> {
    match question.options {
        Some(options) => options,
        None => seq![],
    }
}

/// Whether a question takes a free answer.
pub open spec fn takes_free_answer(question: QuestionView) -> bool {
    question.is_other || choices(question).len() == 0
}

pub open spec fn choice_line(choice: QuestionOptionView) -> Seq<char> {
    if trimmed(choice.description).len() == 0 {
        "- "@ + trimmed(choice.label)
    } else {
        "- "@ + trimmed(choice.label) + ": "@ + trimmed(choice.description)
    }
}

pub open spec fn choice_lines(options: Seq<QuestionOptionView>) -> Seq<Seq<char>> {
    options.map_values(|choice: QuestionOptionView| choice_line(choice))
}

/// The lines above the choices of the question at position `index`.
pub open spec fn question_head(question: QuestionView, index: nat) -> Seq<Seq<char>> {
    let label = question_label(question);
    let head = if label.len() > 0 {
        seq!["Question "@ + decimal_digits(index + 1) + ": "@ + label]
    } else {
        seq![]
    };
    let text = trimmed(question.question);
    if text.len() > 0 && text != trimmed(label) {
        head.push(text)
    } else {
        head
    }
}

/// The lines that show the question at position `index`, with a blank line at the end.
pub open spec fn question_lines(question: QuestionView, index: nat) -> Seq<Seq<char>> {
    let shown = question_head(question, index) + choice_lines(choices(question));
    let shown = if takes_free_answer(question) {
        shown.push("- Custom response: use the supplemental note field."@)
    } else {
        shown
    };
    shown.push(Seq::empty())
}

pub open spec fn all_lines(questions: Seq<QuestionView>) -> Seq<Seq<char>>
    decreases questions.len(),
{
    if questions.len() == 0 {
        seq![]
    } else {
        all_lines(questions.drop_last()) + question_lines(
            questions.last(),
            (questions.len() - 1) as nat,
        )
    }
}

/// What choosing a fixed choice answers.
pub open spec fn choice_answer(question: QuestionView, choice: int) -> ResolvedUserInputAnswerView {
    ResolvedUserInputAnswerView {
        question_id: question.id,
        answer: Some(choices(question)[choice].label),
        use_guidance: false,
    }
}

/// What choosing the free answer answers.
pub open spec fn free_answer(question: QuestionView) -> ResolvedUserInputAnswerView {
    ResolvedUserInputAnswerView { question_id: question.id, answer: None, use_guidance: true }
}

/// An option together with what choosing it answers.
pub open spec fn choice_offer(question: QuestionView, index: nat, several: bool, choice: int) -> (
    PermissionOptionView,
    ResolvedUserInputAnswerView,
) {
    (
        permission_option(
            answer_id(index, choice as nat),
            choice_label(question, several, trimmed(choices(question)[choice].label)),
            PermissionOptionKind::AllowOnce,
        ),
        choice_answer(question, choice),
    )
}

pub open spec fn free_offer(question: QuestionView, index: nat, several: bool) -> (
    PermissionOptionView,
    ResolvedUserInputAnswerView,
) {
    (
        permission_option(
            custom_answer_id(index),
            choice_label(question, several, "Submit response"@),
            PermissionOptionKind::AllowOnce,
        ),
        free_answer(question),
    )
}

/// What is offered for the first `count` fixed choices of a question.
pub open spec fn choice_offers(
    question: QuestionView,
    index: nat,
    several: bool,
    count: nat,
) -> Seq<
    (PermissionOptionView, ResolvedUserInputAnswerView),
> {
    Seq::new(count, |choice: int| choice_offer(question, index, several, choice))
}

/// What is offered for the question at position `index`.
pub open spec fn question_offers(question: QuestionView, index: nat, several: bool) -> Seq<
    (PermissionOptionView, ResolvedUserInputAnswerView),
> {
    let fixed = choice_offers(question, index, several, choices(question).len());
    if takes_free_answer(question) {
        fixed.push(free_offer(question, index, several))
    } else {
        fixed
    }
}

/// What is offered for the first questions of a request; `several` tells whether there are
/// several questions in all.
pub open spec fn all_offers(questions: Seq<QuestionView>, several: bool) -> Seq<
    (PermissionOptionView, ResolvedUserInputAnswerView),
>
    decreases questions.len(),
{
    if questions.len() == 0 {
        seq![]
    } else {
        all_offers(questions.drop_last(), several) + question_offers(
            questions.last(),
            (questions.len() - 1) as nat,
            several,
        )
    }
}

pub open spec fn offer_options(
    offers: Seq<(PermissionOptionView, ResolvedUserInputAnswerView)>,
) -> Seq<PermissionOptionView> {
    offers.map_values(
        |offer: (PermissionOptionView, ResolvedUserInputAnswerView)| offer.0,
    )
}

pub open spec fn offer_map(
    offers: Seq<(PermissionOptionView, ResolvedUserInputAnswerView)>,
) -> Map<Seq<char>, ResolvedUserInputAnswerView>
    decreases offers.len(),
{
    if offers.len() == 0 {
        Map::empty()
    } else {
        offer_map(offers.drop_last()).insert(offers.last().0.option_id, offers.last().1)
    }
}

pub open spec fn questions_title(questions: Seq<QuestionView>) -> Seq<char> {
    if questions.len() > 0 && question_label(questions[0]).len() > 0 {
        "Ask user: "@ + shortened(question_label(questions[0]), 80)
    } else {
        "Ask user"@
    }
}

pub open spec fn questions_content(questions: Seq<QuestionView>) -> Seq<char> {
    trimmed(joined(all_lines(questions), "\n"@))
}

/// The options of all questions, and a way out where there are any.
pub open spec fn questions_options(questions: Seq<QuestionView>) -> Seq<PermissionOptionView> {
    let options = offer_options(all_offers(questions, questions.len() > 1));
    if options.len() > 0 {
        options.push(
            permission_option("cancel"@, "Cancel"@, PermissionOptionKind::RejectOnce),
        )
    } else {
        options
    }
}

pub open spec fn questions_option_map(questions: Seq<QuestionView>) -> Map<
    Seq<char>,
    ResolvedUserInputAnswerView,
> {
    offer_map(all_offers(questions, questions.len() > 1))
}

proof fn lemma_offer_push(
    offers: Seq<(PermissionOptionView, ResolvedUserInputAnswerView)>,
    offer: (PermissionOptionView, ResolvedUserInputAnswerView),
)
    ensures
        offer_options(offers.push(offer)) == offer_options(offers).push(offer.0),
        offer_map(offers.push(offer)) == offer_map(offers).insert(offer.0.option_id, offer.1),
{
    assert(offers.push(offer).drop_last() =~= offers);
    assert(offer_options(offers.push(offer)) =~= offer_options(offers).push(offer.0));
}

fn choice_name(question_label: &str, several: bool, choice: &str) -> (name: String)
    ensures
        name@ == if several {
            shortened(question_label@, 28) + ": "@ + choice@
        } else {
            choice@
        },
{
    if several {
        let short = truncate_chars(question_label, 28);
        concat3(short.as_str(), ": ", choice)
    } else {
        choice.to_owned()
    }
}

fn add_choices(
    question: &Question,
    label: &str,
    index: usize,
    several: bool,
    content: &mut Vec<String>,
    options: &mut Vec<PermissionOption>,
    option_map: &mut StringMap<ResolvedUserInputAnswer>,
    Ghost(offers): Ghost<Seq<(PermissionOptionView, ResolvedUserInputAnswerView)>>,
)
    requires
        label@ == question_label(question.deep_view()),
        old(options).deep_view() == offer_options(offers),
        old(option_map).deep_view() == offer_map(offers),
    ensures
        final(content).deep_view() == old(content).deep_view() + choice_lines(
            choices(question.deep_view()),
        ),
        final(options).deep_view() == offer_options(
            offers + choice_offers(
                question.deep_view(),
                index as nat,
                several,
                choices(question.deep_view()).len(),
            ),
        ),
        final(option_map).deep_view() == offer_map(
            offers + choice_offers(
                question.deep_view(),
                index as nat,
                several,
                choices(question.deep_view()).len(),
            ),
        ),
{
    let ghost view = question.deep_view();
    let ghost all = choices(view);
    let ghost lines = content.deep_view();
    proof {
        assert(choice_offers(view, index as nat, several, 0) =~= seq![]);
        assert(offers + choice_offers(view, index as nat, several, 0) =~= offers);
        assert(lines + choice_lines(all.take(0)) =~= lines);
    }
    if let Some(question_options) = &question.options {
        for i in 0..question_options.len()
            invariant
                question.options == Some(*question_options),
                view == question.deep_view(),
                all == choices(view),
                label@ == question_label(view),
                content.deep_view() == lines + choice_lines(all.take(i as int)),
                options.deep_view() == offer_options(
                    offers + choice_offers(view, index as nat, several, i as nat),
                ),
                option_map.deep_view() == offer_map(
                    offers + choice_offers(view, index as nat, several, i as nat),
                ),
        {
            let option = &question_options[i];
            let digits = decimal(i as u64);
            let position = decimal(index as u64);
            let option_id = concat4("answer:", position.as_str(), ":", digits.as_str());
            let choice = trim(option.label.as_str());
            let name = choice_name(label, several, choice);
            let description = trim(option.description.as_str());
            if description.is_empty() {
                add_item(content, concat2("- ", choice));
            } else {
                add_item(content, concat4("- ", choice, ": ", description));
            }
            add_item(
                options,
                new_permission_option(
                    option_id.as_str(),
                    name.as_str(),
                    PermissionOptionKind::AllowOnce,
                ),
            );
            option_map.insert(
                option_id,
                ResolvedUserInputAnswer {
                    question_id: question.id.clone(),
                    answer: Some(option.label.clone()),
                    use_guidance: false,
                },
            );
            proof {
                let offer = choice_offer(view, index as nat, several, i as int);
                assert(choice_offers(view, index as nat, several, (i + 1) as nat) =~= choice_offers(
                    view,
                    index as nat,
                    several,
                    i as nat,
                ).push(offer));
                assert(offers + choice_offers(view, index as nat, several, (i + 1) as nat) =~= (
                offers + choice_offers(view, index as nat, several, i as nat)).push(offer));
                lemma_offer_push(
                    offers + choice_offers(view, index as nat, several, i as nat),
                    offer,
                );
                assert(choice_lines(all.take(i + 1)) =~= choice_lines(all.take(i as int)).push(
                    choice_line(all[i as int]),
                ));
                assert(lines + choice_lines(all.take(i + 1)) =~= (lines + choice_lines(
                    all.take(i as int),
                )).push(choice_line(all[i as int])));
            }
        }
    }
    assert(all.take(all.len() as int) =~= all);
}

fn add_question(
    question: &Question,
    index: usize,
    several: bool,
    content: &mut Vec<String>,
    options: &mut Vec<PermissionOption>,
    option_map: &mut StringMap<ResolvedUserInputAnswer>,
    Ghost(offers): Ghost<Seq<(PermissionOptionView, ResolvedUserInputAnswerView)>>,
)
    requires
        index < usize::MAX,
        old(options).deep_view() == offer_options(offers),
        old(option_map).deep_view() == offer_map(offers),
    ensures
        final(content).deep_view() == old(content).deep_view() + question_lines(
            question.deep_view(),
            index as nat,
        ),
        final(options).deep_view() == offer_options(
            offers + question_offers(question.deep_view(), index as nat, several),
        ),
        final(option_map).deep_view() == offer_map(
            offers + question_offers(question.deep_view(), index as nat, several),
        ),
{
    let ghost view = question.deep_view();
    let ghost lines = content.deep_view();
    let label = user_input_question_label(question);
    if !label.as_str().is_empty() {
        let number = decimal(index as u64 + 1);
        add_item(content, concat4("Question ", number.as_str(), ": ", label.as_str()));
    }
    let text = trim(question.question.as_str());
    if !text.is_empty() && !same(text, trim(label.as_str())) {
        add_item(content, text.to_owned());
    }
    assert(content.deep_view() =~= lines + question_head(view, index as nat));
    add_choices(
        question,
        label.as_str(),
        index,
        several,
        content,
        options,
        option_map,
        Ghost(offers),
    );
    let ghost fixed = choice_offers(view, index as nat, several, choices(view).len());
    let no_choices = match &question.options {
        Some(question_options) => question_options.len() == 0,
        None => true,
    };
    if question.is_other || no_choices {
        let position = decimal(index as u64);
        let option_id = concat3("answer:", position.as_str(), ":custom");
        let name = choice_name(label.as_str(), several, "Submit response");
        add_item(content, "- Custom response: use the supplemental note field.".to_owned());
        add_item(
            options,
            new_permission_option(
                option_id.as_str(),
                name.as_str(),
                PermissionOptionKind::AllowOnce,
            ),
        );
        option_map.insert(
            option_id,
            ResolvedUserInputAnswer {
                question_id: question.id.clone(),
                answer: None,
                use_guidance: true,
            },
        );
        proof {
            lemma_offer_push(offers + fixed, free_offer(view, index as nat, several));
            assert((offers + fixed).push(free_offer(view, index as nat, several)) =~= offers + (
            fixed.push(free_offer(view, index as nat, several))));
        }
    }
    add_item(content, String::new());
    assert(content.deep_view() =~= lines + question_lines(view, index as nat));
}

pub fn build_user_input_permission_request(questions: &Vec<Question>) -> (request: (
    String,
    String,
    Vec<PermissionOption>,
    StringMap<ResolvedUserInputAnswer>,
))
    ensures
        request.0@ == questions_title(questions.deep_view()),
        request.1@ == questions_content(questions.deep_view()),
        request.2.deep_view() == questions_options(questions.deep_view()),
        request.3.deep_view() == questions_option_map(questions.deep_view()),
{
    let ghost all = questions.deep_view();
    let several = questions.len() > 1;
    let mut title = "Ask user".to_owned();
    if questions.len() > 0 {
        let label = user_input_question_label(&questions[0]);
        if !label.as_str().is_empty() {
            let short = truncate_chars(label.as_str(), 80);
            title = concat2("Ask user: ", short.as_str());
        }
    }
    let mut content: Vec<String> = empty();
    let mut options: Vec<PermissionOption> = empty();
    let mut option_map: StringMap<ResolvedUserInputAnswer> = StringMap::new();

    assert(all_offers(all.take(0), several) =~= seq![]);
    assert(offer_options(all_offers(all.take(0), several)) =~= seq![]);
    for i in 0..questions.len()
        invariant
            all == questions.deep_view(),
            content.deep_view() == all_lines(all.take(i as int)),
            options.deep_view() == offer_options(all_offers(all.take(i as int), several)),
            option_map.deep_view() == offer_map(all_offers(all.take(i as int), several)),
    {
        assert(all.take(i + 1).drop_last() =~= all.take(i as int));
        add_question(
            &questions[i],
            i,
            several,
            &mut content,
            &mut options,
            &mut option_map,
            Ghost(all_offers(all.take(i as int), several)),
        );
    }
    assert(all.take(all.len() as int) =~= all);
    if options.len() > 0 {
        add_item(
            &mut options,
            new_permission_option("cancel", "Cancel", PermissionOptionKind::RejectOnce),
        );
    }
    let text = join(&content, "\n");
    (title, trim(text.as_str()).to_owned(), options, option_map)
}

/// The questions as metadata of the permission request.
pub open spec fn questions_meta(questions: Seq<JsonView>) -> Seq<(Seq<char>, JsonView)> {
    seq![
        (
            PERMISSION_INPUT_META_KEY@,
            JsonView::Object(seq![("questions"@, JsonView::Array(questions))]),
        ),
    ]
}

pub fn user_input_permission_meta(questions: Vec<Json>) -> (meta: Vec<(String, Json)>)
    ensures
        meta.deep_view() == questions_meta(questions.deep_view()),
{
    broadcast use crate::json::lemma_tree;

    one(
        (
            PERMISSION_INPUT_META_KEY.to_owned(),
            Json::Object(one(("questions".to_owned(), Json::Array(questions)))),
        ),
    )
}

/// What follows the number of the question in the identifier of an offer.
spec fn offer_suffix(question: QuestionView, position: int) -> Seq<char> {
    if position < choices(question).len() {
        decimal_digits(position as nat)
    } else {
        "custom"@
    }
}

proof fn lemma_offer_id(question: QuestionView, index: nat, several: bool, position: int)
    requires
        0 <= position < question_offers(question, index, several).len(),
    ensures
        question_offers(question, index, several)[position].0.option_id == "answer:"@ + (
        decimal_digits(index) + seq![':'] + offer_suffix(question, position)),
{
    reveal_strlit(":");
    reveal_strlit(":custom");
    reveal_strlit("custom");
    assert(":"@ =~= seq![':']);
    assert(":custom"@ =~= seq![':'] + "custom"@);
    let id = question_offers(question, index, several)[position].0.option_id;
    if position < choices(question).len() {
        assert(id =~= "answer:"@ + (decimal_digits(index) + seq![':'] + decimal_digits(
            position as nat,
        )));
    } else {
        assert(id =~= "answer:"@ + (decimal_digits(index) + seq![':'] + "custom"@));
    }
}

proof fn lemma_digits_have_no_colon(n: nat)
    ensures
        !decimal_digits(n).contains(':'),
{
    lemma_decimal_digits(n);
    if decimal_digits(n).contains(':') {
        let i = choose|i: int| 0 <= i < decimal_digits(n).len() && decimal_digits(n)[i] == ':';
        assert('0' <= decimal_digits(n)[i] <= '9');
    }
}

proof fn lemma_offer_ids_differ(
    left: QuestionView,
    left_index: nat,
    i: int,
    right: QuestionView,
    right_index: nat,
    j: int,
    several: bool,
)
    requires
        0 <= i < question_offers(left, left_index, several).len(),
        0 <= j < question_offers(right, right_index, several).len(),
        question_offers(left, left_index, several)[i].0.option_id == question_offers(
            right,
            right_index,
            several,
        )[j].0.option_id,
    ensures
        left_index == right_index,
        left == right ==> i == j,
{
    lemma_offer_id(left, left_index, several, i);
    lemma_offer_id(right, right_index, several, j);
    let a = decimal_digits(left_index) + seq![':'] + offer_suffix(left, i);
    let b = decimal_digits(right_index) + seq![':'] + offer_suffix(right, j);
    assert(a =~= ("answer:"@ + a).skip("answer:"@.len() as int));
    assert(b =~= ("answer:"@ + b).skip("answer:"@.len() as int));
    lemma_digits_have_no_colon(left_index);
    lemma_digits_have_no_colon(right_index);
    lemma_marked_parts(
        decimal_digits(left_index),
        offer_suffix(left, i),
        decimal_digits(right_index),
        offer_suffix(right, j),
        ':',
    );
    decimal_digits_differ(left_index, right_index);
    if left == right {
        reveal_strlit("custom");
        assert("custom"@[0] == 'c');
        let count = choices(left).len();
        lemma_decimal_digits(i as nat);
        lemma_decimal_digits(j as nat);
        if i < count && j < count {
            decimal_digits_differ(i as nat, j as nat);
        } else if i < count {
            assert('0' <= decimal_digits(i as nat)[0] <= '9');
        } else if j < count {
            assert('0' <= decimal_digits(j as nat)[0] <= '9');
        }
    }
}

/// The question and the position in it that an offer of a request comes from.
proof fn lemma_offer_source(questions: Seq<QuestionView>, several: bool, k: int) -> (source: (
    int,
    int,
))
    requires
        0 <= k < all_offers(questions, several).len(),
    ensures
        0 <= source.0 < questions.len(),
        0 <= source.1 < question_offers(questions[source.0], source.0 as nat, several).len(),
        all_offers(questions, several)[k] == question_offers(
            questions[source.0],
            source.0 as nat,
            several,
        )[source.1],
        source.0 < questions.len() - 1 ==> k < all_offers(questions.drop_last(), several).len(),
        source.0 == questions.len() - 1 ==> k == all_offers(questions.drop_last(), several).len()
            + source.1,
    decreases questions.len(),
{
    let init = questions.drop_last();
    let before = all_offers(init, several);
    if k < before.len() {
        let source = lemma_offer_source(init, several, k);
        assert(init[source.0] == questions[source.0]);
        source
    } else {
        (questions.len() - 1, k - before.len())
    }
}

/// The options that are offered for questions all have different identifiers.
pub proof fn answer_ids_differ(questions: Seq<QuestionView>, several: bool, j: int, k: int)
    requires
        0 <= j < k < all_offers(questions, several).len(),
    ensures
        all_offers(questions, several)[j].0.option_id != all_offers(
            questions,
            several,
        )[k].0.option_id,
    decreases questions.len(),
{
    let offers = all_offers(questions, several);
    let before = all_offers(questions.drop_last(), several);
    if offers[j].0.option_id == offers[k].0.option_id {
        if k < before.len() {
            assert(offers[j] == before[j] && offers[k] == before[k]);
            answer_ids_differ(questions.drop_last(), several, j, k);
        } else {
            let (p, i) = lemma_offer_source(questions, several, j);
            let (q, l) = lemma_offer_source(questions, several, k);
            lemma_offer_ids_differ(questions[p], p as nat, i, questions[q], q as nat, l, several);
        }
    }
}

proof fn lemma_offer_map(
    offers: Seq<(PermissionOptionView, ResolvedUserInputAnswerView)>,
    chosen: int,
)
    requires
        0 <= chosen < offers.len(),
        forall|k: int|
            chosen < k < offers.len() ==> (#[trigger] offers[k]).0.option_id
                != offers[chosen].0.option_id,
    ensures
        offer_map(offers).contains_key(offers[chosen].0.option_id),
        offer_map(offers)[offers[chosen].0.option_id] == offers[chosen].1,
    decreases offers.len(),
{
    let init = offers.drop_last();
    if chosen < init.len() {
        assert forall|k: int| chosen < k < init.len() implies (#[trigger] init[k]).0.option_id
            != init[chosen].0.option_id by {
            assert(init[k] == offers[k]);
        }
        lemma_offer_map(init, chosen);
        assert(offers[offers.len() - 1].0.option_id != offers[chosen].0.option_id);
    }
}

proof fn lemma_offer_key(
    offers: Seq<(PermissionOptionView, ResolvedUserInputAnswerView)>,
    id: Seq<char>,
) -> (k: int)
    requires
        offer_map(offers).contains_key(id),
    ensures
        0 <= k < offers.len(),
        offers[k].0.option_id == id,
    decreases offers.len(),
{
    if offers.last().0.option_id == id {
        offers.len() - 1
    } else {
        lemma_offer_key(offers.drop_last(), id)
    }
}

/// Every option that is offered for questions stands for its own answer.
pub proof fn answer_option_means_its_answer(questions: Seq<QuestionView>, chosen: int)
    requires
        0 <= chosen < all_offers(questions, questions.len() > 1).len(),
    ensures
        ({
            let offer = all_offers(questions, questions.len() > 1)[chosen];
            &&& questions_options(questions)[chosen] == offer.0
            &&& questions_option_map(questions).contains_key(offer.0.option_id)
            &&& questions_option_map(questions)[offer.0.option_id] == offer.1
        }),
{
    let offers = all_offers(questions, questions.len() > 1);
    assert forall|k: int| chosen < k < offers.len() implies (#[trigger] offers[k]).0.option_id
        != offers[chosen].0.option_id by {
        answer_ids_differ(questions, questions.len() > 1, chosen, k);
    }
    lemma_offer_map(offers, chosen);
    assert(offer_options(offers)[chosen] == offers[chosen].0);
}

/// The way out answers nothing, and every answer that is understood is offered.
pub proof fn only_offered_answers_are_understood(questions: Seq<QuestionView>, id: Seq<char>)
    ensures
        !questions_option_map(questions).contains_key("cancel"@),
        questions_option_map(questions).contains_key(id) ==> exists|i: int|
            0 <= i < questions_options(questions).len() && (#[trigger] questions_options(
                questions,
            )[i]).option_id == id,
{
    let several = questions.len() > 1;
    let offers = all_offers(questions, several);
    if questions_option_map(questions).contains_key("cancel"@) {
        let k = lemma_offer_key(offers, "cancel"@);
        let (q, i) = lemma_offer_source(questions, several, k);
        lemma_offer_id(questions[q], q as nat, several, i);
        reveal_strlit("cancel");
        reveal_strlit("answer:");
        assert("cancel"@[0] == 'c' && "answer:"@[0] == 'a');
        assert(offers[k].0.option_id[0] == 'a');
    }
    if questions_option_map(questions).contains_key(id) {
        let k = lemma_offer_key(offers, id);
        assert(offer_options(offers)[k] == offers[k].0);
        assert(questions_options(questions)[k] == offers[k].0);
    }
}

/// Every question can be answered: it has a choice, or it takes a free answer.
pub proof fn every_question_can_be_answered(question: QuestionView, index: nat, several: bool)
    ensures
        question_offers(question, index, several).len() > 0,
        forall|i: int|
            0 <= i < question_offers(question, index, several).len() ==> (
            #[trigger] question_offers(question, index, several)[i]).1.question_id == question.id,
{
}

} // verus!
