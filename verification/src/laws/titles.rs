//! Where the title of a session comes from, and what becomes of it.
use crate::agent::contains_text;
use crate::backend::EventView;
use crate::command_safety::occurs_at;
use crate::events::EventMsgView;
use crate::json::JsonView;
use crate::protocol::{MessagePhase, OpView, SessionUpdateView, UserInputView};
use crate::text::{
    CharClass, before_char, joined, lemma_before_char, trimmed, without_leading, without_trailing,
};
use crate::title::{
    SESSION_TITLE_INSTRUCTIONS, ThreadTitleStateView, bare_title, first_line, normalized_title,
    prompt_text, prompt_texts, title_prompt, unquoted,
};
use crate::title_flow::{
    GeneratorOutcomeView, HiddenTitleTurnView, HiddenTurnOutcomeView, HiddenTurnStepView,
    TitleDecisionView, TitleStepView, TitleStreamEventView, after_generator, all_texts,
    gathered_title, hidden_prompt, hidden_turn, hidden_turn_follow_up, hidden_turn_step,
    rollback_step, streamed_title, title_decision, title_published,
};
use vstd::prelude::*;

verus! {

/// A title without marks around it: it is one line, and has neither white space nor quotes at its
/// ends, nor a full stop at its end.
pub open spec fn is_plain_title(title: Seq<char>) -> bool {
    &&& title.len() > 0
    &&& !title.contains('\n')
    &&& !CharClass::White.has(title.first()) && !CharClass::White.has(title.last())
    &&& !CharClass::Quote.has(title.first()) && !CharClass::Quote.has(title.last())
    &&& !CharClass::FullStop.has(title.last())
}

/// A plain title is kept as it is; in quotes, with full stops behind it, or with further lines, it
/// is still the same title.
pub proof fn title_is_freed_of_marks(
    title: Seq<char>,
    quote: char,
    stop: char,
    white: char,
    rest: Seq<char>,
)
    requires
        is_plain_title(title),
        CharClass::Quote.has(quote),
        CharClass::FullStop.has(stop),
        CharClass::White.has(white),
    ensures
        bare_title(title) == title,
        bare_title(seq![quote] + title + seq![quote]) == title,
        bare_title(title + seq![stop]) == title,
        bare_title(seq![quote] + title + seq![stop, quote]) == title,
        bare_title(title + seq!['\n'] + rest) == title,
        bare_title(seq![white] + title + seq![white]) == title,
{
    lemma_plain_line(title);
    lemma_unquoted(title, quote, stop);
    let whole = seq![quote] + title + seq![quote];
    assert(whole.first() == quote && whole.last() == quote);
    assert(!CharClass::White.has(quote) && quote != '\n');
    assert(!CharClass::White.has(stop) && stop != '\n');
    lemma_no_line_end(whole, title, quote, quote);
    lemma_line_is_whole(whole);
    let stopped = title + seq![stop];
    assert(stopped.first() == title.first() && stopped.last() == stop);
    assert forall|i: int| 0 <= i < stopped.len() implies stopped[i] != '\n' by {
        if i < title.len() {
            assert(stopped[i] == title[i]);
            assert(title.contains(title[i]));
        }
    }
    lemma_line_is_whole(stopped);
    let both = seq![quote] + title + seq![stop, quote];
    assert(both.first() == quote && both.last() == quote);
    assert forall|i: int| 0 <= i < both.len() implies both[i] != '\n' by {
        if 0 < i <= title.len() {
            assert(both[i] == title[i - 1]);
            assert(title.contains(title[i - 1]));
        }
    }
    lemma_line_is_whole(both);
    let lines = title + seq!['\n'] + rest;
    assert(lines.first() == title.first());
    assert(without_leading(lines, CharClass::White) == lines);
    lemma_first_of_lines(title, rest);
    let spaced = seq![white] + title + seq![white];
    lemma_spaced_line(title, white);
}

proof fn lemma_plain_line(title: Seq<char>)
    requires
        is_plain_title(title),
    ensures
        trimmed(title) == title,
        bare_title(title) == title,
{
    assert forall|i: int| 0 <= i < title.len() implies title[i] != '\n' by {
        assert(title.contains(title[i]));
    }
    lemma_line_is_whole(title);
    assert(without_leading(title, CharClass::Quote) == title);
    assert(without_trailing(title, CharClass::Quote) == title);
    assert(without_trailing(title, CharClass::FullStop) == title);
    assert(without_leading(title, CharClass::White) == title);
    assert(without_trailing(title, CharClass::White) == title);
}

proof fn lemma_no_line_end(whole: Seq<char>, title: Seq<char>, before: char, behind: char)
    requires
        whole == seq![before] + title + seq![behind],
        !title.contains('\n'),
        before != '\n',
        behind != '\n',
    ensures
        forall|i: int| 0 <= i < whole.len() ==> whole[i] != '\n',
{
    assert forall|i: int| 0 <= i < whole.len() implies whole[i] != '\n' by {
        if 0 < i <= title.len() {
            assert(whole[i] == title[i - 1]);
            assert(title.contains(title[i - 1]));
        }
    }
}

/// A line without white space around it is its own first line.
proof fn lemma_line_is_whole(line: Seq<char>)
    requires
        line.len() > 0,
        forall|i: int| 0 <= i < line.len() ==> line[i] != '\n',
        !CharClass::White.has(line.first()) && !CharClass::White.has(line.last()),
    ensures
        first_line(line) == line,
{
    lemma_before_char(line, '\n');
    assert(without_leading(line, CharClass::White) == line);
    let head = before_char(line, '\n');
    assert(head.len() == line.len());
    assert(line.take(line.len() as int) =~= line);
    assert(without_trailing(line, CharClass::White) == line);
}

proof fn lemma_first_of_lines(title: Seq<char>, rest: Seq<char>)
    requires
        is_plain_title(title),
    ensures
        before_char(title + seq!['\n'] + rest, '\n') == title,
{
    let lines = title + seq!['\n'] + rest;
    lemma_before_char(lines, '\n');
    let head = before_char(lines, '\n');
    assert(lines[title.len() as int] == '\n');
    if head.len() < title.len() {
        assert(title[head.len() as int] == '\n');
        assert(title.contains('\n'));
    }
    if head.len() > title.len() {
        assert(head[title.len() as int] == '\n');
        assert(head.contains('\n'));
    }
    assert(lines.take(title.len() as int) =~= title);
}

proof fn lemma_spaced_line(title: Seq<char>, white: char)
    requires
        is_plain_title(title),
        CharClass::White.has(white),
    ensures
        bare_title(seq![white] + title + seq![white]) == title,
{
    let spaced = seq![white] + title + seq![white];
    let behind = title + seq![white];
    assert(spaced.drop_first() =~= behind);
    assert(behind.first() == title.first());
    assert(without_leading(spaced, CharClass::White) == without_leading(behind, CharClass::White));
    assert(without_leading(behind, CharClass::White) == behind);
    lemma_plain_line(title);
    assert(behind.drop_last() =~= title);
    if white == '\n' {
        lemma_first_of_lines(title, Seq::empty());
        assert(title + seq!['\n'] + Seq::<char>::empty() =~= behind);
    } else {
        lemma_before_char(behind, '\n');
        assert forall|i: int| 0 <= i < behind.len() implies behind[i] != '\n' by {
            if i < title.len() {
                assert(behind[i] == title[i]);
                assert(title.contains(title[i]));
            }
        }
        assert(before_char(behind, '\n').len() == behind.len());
        assert(behind.take(behind.len() as int) =~= behind);
        assert(without_trailing(behind, CharClass::White) == without_trailing(
            title,
            CharClass::White,
        ));
    }
}

proof fn lemma_unquoted(title: Seq<char>, quote: char, stop: char)
    requires
        is_plain_title(title),
        CharClass::Quote.has(quote),
        CharClass::FullStop.has(stop),
    ensures
        unquoted(seq![quote] + title + seq![quote]) == title,
        unquoted(title + seq![stop]) == title,
        unquoted(seq![quote] + title + seq![stop, quote]) == title,
{
    lemma_plain_line(title);
    assert(without_leading(title, CharClass::Quote) == title);
    assert(without_trailing(title, CharClass::Quote) == title);
    assert(without_trailing(title, CharClass::FullStop) == title);
    let quoted = seq![quote] + title + seq![quote];
    let half = title + seq![quote];
    assert(quoted.drop_first() =~= half);
    assert(half.first() == title.first());
    assert(without_leading(quoted, CharClass::Quote) == without_leading(half, CharClass::Quote));
    assert(without_leading(half, CharClass::Quote) == half);
    assert(half.drop_last() =~= title);
    assert(without_trailing(half, CharClass::Quote) == without_trailing(title, CharClass::Quote));
    let stopped = title + seq![stop];
    assert(stopped.first() == title.first() && stopped.last() == stop);
    assert(!CharClass::Quote.has(stop));
    assert(without_leading(stopped, CharClass::Quote) == stopped);
    assert(without_trailing(stopped, CharClass::Quote) == stopped);
    assert(stopped.drop_last() =~= title);
    assert(without_trailing(stopped, CharClass::FullStop) == without_trailing(
        title,
        CharClass::FullStop,
    ));
    let both = seq![quote] + title + seq![stop, quote];
    let rest = title + seq![stop, quote];
    assert(both.drop_first() =~= rest);
    assert(rest.first() == title.first() && rest.last() == quote);
    assert(without_leading(both, CharClass::Quote) == without_leading(rest, CharClass::Quote));
    assert(without_leading(rest, CharClass::Quote) == rest);
    assert(rest.drop_last() =~= stopped);
    assert(without_trailing(rest, CharClass::Quote) == without_trailing(
        stopped,
        CharClass::Quote,
    ));
}

/// A plain title that is no longer than sixty characters is taken word for word, unless it repeats
/// the prompt; a longer one is cut to sixty characters that end in dots.
pub proof fn plain_title_is_taken(title: Seq<char>)
    requires
        is_plain_title(title),
    ensures
        title.len() <= 60 ==> normalized_title(title, None) == Some(title),
        title.len() > 60 ==> normalized_title(title, None) == Some(title.take(57) + "..."@),
        normalized_title(title, Some(title)) is None,
        normalized_title(Seq::empty(), None) is None,
{
    lemma_plain_line(title);
    let none: Seq<char> = Seq::empty();
    assert(before_char(none, '\n') =~= none);
    assert(without_trailing(none, CharClass::White) == none);
    assert(bare_title(none).len() == 0);
}

/// A request for a title holds the prompt and the answer, each whole where it is no longer than
/// four thousand characters, the prompt as that of the user and the answer as that of the
/// assistant.
pub proof fn title_request_holds_both(prompt: Seq<char>, response: Seq<char>)
    requires
        prompt.len() <= 4000,
        response.len() <= 4000,
    ensures
        contains_text(
            title_prompt(prompt, Some(response)),
            "<user_request>\n"@ + prompt + "\n</user_request>"@,
        ),
        contains_text(
            title_prompt(prompt, Some(response)),
            "<assistant_response>\n"@ + response + "\n</assistant_response>"@,
        ),
        contains_text(
            title_prompt(prompt, None),
            "<user_request>\n"@ + prompt + "\n</user_request>"@,
        ),
{
    let whole = title_prompt(prompt, Some(response));
    let bare = title_prompt(prompt, None);
    let asked = "<user_request>\n"@ + prompt + "\n</user_request>"@;
    let told = "<assistant_response>\n"@ + response + "\n</assistant_response>"@;
    reveal_strlit("\n\n<user_request>\n");
    reveal_strlit("<user_request>\n");
    reveal_strlit("\n</user_request>");
    reveal_strlit("\n</user_request>\n\n<assistant_response>\n");
    reveal_strlit("<assistant_response>\n");
    assert("\n\n<user_request>\n"@ =~= seq!['\n', '\n'] + "<user_request>\n"@);
    assert("\n</user_request>\n\n<assistant_response>\n"@ =~= "\n</user_request>"@ + seq![
        '\n',
        '\n',
    ] + "<assistant_response>\n"@);
    let start = SESSION_TITLE_INSTRUCTIONS@.len() as int + 2;
    assert(whole.subrange(start, start + asked.len()) =~= asked);
    assert(occurs_at(whole, asked, start));
    assert(bare.subrange(start, start + asked.len()) =~= asked);
    assert(occurs_at(bare, asked, start));
    let second = start + asked.len() + 2;
    assert(whole.subrange(second, second + told.len()) =~= told);
    assert(occurs_at(whole, told, second));
}

/// What the user wrote are the texts of the prompt that are not blank, in their order, one to a
/// line and without white space around them; what is no text is left out.
pub proof fn prompt_is_what_the_user_wrote(items: Seq<UserInputView>, item: UserInputView)
    ensures
        ({
            let before = prompt_texts(items);
            let after = prompt_texts(items.push(item));
            &&& items.len() == 0 ==> before.len() == 0
            &&& item matches UserInputView::Text(text) ==> after == if trimmed(text).len() > 0 {
                before.push(trimmed(text))
            } else {
                before
            }
            &&& item is Other ==> after == before
            &&& joined(before, "\n"@).len() > 0 ==> prompt_text(items) == Some(
                joined(before, "\n"@),
            )
            &&& joined(before, "\n"@).len() == 0 ==> prompt_text(items) is None
        }),
{
    assert(items.push(item).drop_last() =~= items);
}

/// A title is told where it is not the one that is shown, as the title of the session.
pub proof fn new_title_is_told(current: Option<Seq<char>>, title: Seq<char>)
    ensures
        title_published(current, title).0 == Some(title),
        current == Some(title) ==> title_published(current, title).1 is None,
        current != Some(title) ==> (title_published(current, title).1 matches Some(message)
            && message.meta is None && message.update == SessionUpdateView::SessionInfo {
            title: Some(title),
        }),
{
}

/// A plain title that the thread has is published; without one a title is generated from the first
/// message of the thread, else from the prompt of the turn; without a generator, or without a word
/// to start from, nothing is done.
pub proof fn title_is_decided_from_what_is_known(
    name: Seq<char>,
    first: Seq<char>,
    prompt: Option<Seq<char>>,
    has_generator: bool,
)
    requires
        is_plain_title(name),
        name.len() <= 60,
        trimmed(first).len() > 0,
    ensures
        title_decision(
            None,
            prompt,
            Some(ThreadTitleStateView { name: Some(name), first_user_message: None }),
            has_generator,
        ) == TitleDecisionView::Publish(name),
        title_decision(
            None,
            prompt,
            Some(ThreadTitleStateView { name: None, first_user_message: Some(first) }),
            true,
        ) == (TitleDecisionView::Generate { prompt_text: first }),
        title_decision(
            None,
            Some(first),
            Some(ThreadTitleStateView { name: None, first_user_message: None }),
            true,
        ) == (TitleDecisionView::Generate { prompt_text: first }),
        title_decision(None, Some(first), None, true) == (TitleDecisionView::Generate {
            prompt_text: first,
        }),
        title_decision(None, None, None, has_generator) == TitleDecisionView::Nothing,
        title_decision(None, prompt, None, false) == TitleDecisionView::Nothing,
        title_decision(
            None,
            prompt,
            Some(ThreadTitleStateView { name: Some(name), first_user_message: Some(name) }),
            false,
        ) == TitleDecisionView::Nothing,
{
    plain_title_is_taken(name);
}

/// What the generator gives is published; where it gives nothing nothing is done, and where it
/// fails the agent itself is asked, with the request for a title as its only input.
pub proof fn generator_is_followed(
    title: Seq<char>,
    prompt: Seq<char>,
    response: Option<Seq<char>>,
    id: Seq<char>,
    message: Seq<char>,
)
    ensures
        after_generator(GeneratorOutcomeView::Title(Some(title))) == TitleStepView::Publish(title),
        after_generator(GeneratorOutcomeView::Title(None)) == TitleStepView::Nothing,
        after_generator(GeneratorOutcomeView::Failed) == TitleStepView::HiddenTurn,
        hidden_prompt(prompt, response) matches OpView::UserInput { items } && items.len() == 1
            && items[0] == UserInputView::Text(title_prompt(prompt, response)),
        hidden_turn(prompt, Ok(id)) matches Ok(turn) && turn.submission_id == id
            && turn.prompt_text == prompt && turn.title.len() == 0,
        hidden_turn(prompt, Err(message)) == Err::<HiddenTitleTurnView, Seq<char>>(message),
{
}

/// A hidden turn gathers its title from the pieces of the message in their order, else from the
/// message as a whole, and gives it when it is complete. It stops at the first request for a tool,
/// and says why it failed.
pub proof fn hidden_turn_gathers_its_title(
    turn: HiddenTitleTurnView,
    item_id: Seq<char>,
    text: Seq<char>,
    phase: Option<MessagePhase>,
    info: JsonView,
)
    ensures
        gathered_title(turn.title, EventMsgView::AgentMessageContentDelta { item_id, delta: text })
            == turn.title + text,
        turn.title.len() == 0 ==> gathered_title(
            turn.title,
            EventMsgView::AgentMessage { message: text, phase },
        ) == text,
        trimmed(turn.title).len() > 0 ==> gathered_title(
            turn.title,
            EventMsgView::AgentMessage { message: text, phase },
        ) == turn.title,
        turn.title.len() == 0 ==> hidden_turn_step(
            turn,
            EventMsgView::TurnComplete { last_agent_message: Some(text) },
        ) == HiddenTurnStepView::Finished(normalized_title(text, Some(turn.prompt_text))),
        hidden_turn_step(turn, EventMsgView::TurnComplete { last_agent_message: None })
            == HiddenTurnStepView::Finished(
            normalized_title(turn.title, Some(turn.prompt_text)),
        ),
        hidden_turn_step(turn, EventMsgView::TurnAborted) == HiddenTurnStepView::Finished(None),
        hidden_turn_step(turn, EventMsgView::Error { message: text, codex_error_info: info })
            == HiddenTurnStepView::Failed("hidden title turn failed: "@ + text),
        hidden_turn_step(turn, EventMsgView::StreamError { message: text })
            == HiddenTurnStepView::Failed("hidden title turn stream failed: "@ + text),
        hidden_turn_step(turn, EventMsgView::AgentMessageContentDelta { item_id, delta: text })
            == HiddenTurnStepView::Continue,
        hidden_turn_step(turn, EventMsgView::AgentMessage { message: text, phase })
            == HiddenTurnStepView::Continue,
{
    if turn.title.len() == 0 {
        assert(turn.title =~= Seq::empty());
        assert(Seq::<char>::empty() + text =~= text);
        assert(trimmed(turn.title).len() == 0) by {
            assert(without_leading(turn.title, CharClass::White).len() == 0);
        }
    }
}

/// A hidden turn is interrupted by whatever asks for a tool or a permission.
pub proof fn hidden_turn_runs_no_tool(turn: HiddenTitleTurnView, msg: EventMsgView)
    ensures
        msg is ExecApprovalRequest || msg is RequestPermissions || msg is DynamicToolCallRequest
            || msg is McpToolCallBegin || msg is ApplyPatchApprovalRequest || msg is PatchApplyBegin
            <==> hidden_turn_step(turn, msg) == HiddenTurnStepView::Interrupt,
{
}

/// A hidden turn that finished is taken back; one that asked for a tool is interrupted and taken
/// back; one that took too long is interrupted; one that failed is left.
pub proof fn hidden_turn_is_cleaned_up(title: Option<Seq<char>>, message: Seq<char>)
    ensures
        ({
            let finished = hidden_turn_follow_up(HiddenTurnOutcomeView::Finished(title));
            let asked = hidden_turn_follow_up(HiddenTurnOutcomeView::ToolRequested);
            let failed = hidden_turn_follow_up(HiddenTurnOutcomeView::Failed(message));
            let late = hidden_turn_follow_up(HiddenTurnOutcomeView::TimedOut);
            &&& !finished.interrupt && finished.roll_back && finished.title == title
            &&& asked.interrupt && asked.roll_back && asked.title is None
            &&& !failed.interrupt && !failed.roll_back && failed.title is None
            &&& late.interrupt && !late.roll_back && late.title is None
        }),
{
}

/// Whether a turn was taken back is told by an event of the request for it, and by no other.
pub proof fn taking_back_is_told(
    id: Seq<char>,
    other: Seq<char>,
    msg: EventMsgView,
    message: Seq<char>,
    info: JsonView,
)
    requires
        other != id,
    ensures
        rollback_step(id, EventView { id, msg: EventMsgView::ThreadRolledBack }) == Some(true),
        rollback_step(
            id,
            EventView { id, msg: EventMsgView::Error { message, codex_error_info: info } },
        ) == Some(false),
        rollback_step(id, EventView { id, msg: EventMsgView::StreamError { message } }) == Some(
            false,
        ),
        rollback_step(id, EventView { id: other, msg }) is None,
        rollback_step(id, EventView { id, msg: EventMsgView::TurnStarted }) is None,
{
}

/// A streamed title is made of its pieces in their order; the finished message counts where nothing
/// was streamed.
pub proof fn title_is_streamed_in_order(
    title: Seq<char>,
    delta: Seq<char>,
    first: Seq<char>,
    second: Seq<char>,
)
    ensures
        streamed_title(title, TitleStreamEventView::TextDelta(delta)) == title + delta,
        trimmed(title).len() > 0 ==> streamed_title(
            title,
            TitleStreamEventView::MessageDone(seq![first, second]),
        ) == title,
        title.len() == 0 ==> streamed_title(
            title,
            TitleStreamEventView::MessageDone(seq![first, second]),
        ) == first + second,
        streamed_title(title, TitleStreamEventView::Completed) == title,
        streamed_title(title, TitleStreamEventView::Other) == title,
{
    reveal_with_fuel(all_texts, 3);
    let texts = seq![first, second];
    assert(texts.drop_last() =~= seq![first]);
    assert(seq![first].drop_last() =~= Seq::<Seq<char>>::empty());
    if title.len() == 0 {
        assert(without_leading(title, CharClass::White).len() == 0);
        assert(title + (Seq::<char>::empty() + first + second) =~= first + second);
    }
}

} // verus!
