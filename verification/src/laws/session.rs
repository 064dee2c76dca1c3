//! What the messages to a session lead to.
use crate::actor::{
    AcceptedView, ActorResolutionView, MessageOutcomeView, ModelChoiceView, PendingView,
    PermissionAnswerView, ThreadActorView, ThreadMessageView, answer_routed, event_routed,
    failed_by_event, failed_by_resolution, global_event, left_to_do, message_handled, still_active,
    submission_answered, submission_reply, tells_options,
};
use crate::agent::{
    KODEX_ENGINEERING_DEVELOPER_RULES, KODEX_FILE_EDITING_DEVELOPER_INSTRUCTIONS, contains_text,
    distinct_title, merged_instructions,
};
use crate::backend::EventView;
use crate::config_options::{
    offered_commands, session_modes, session_options, session_options_are_known,
};
use crate::events::EventMsgView;
use crate::json::{JsonView, field};
use crate::laws::titles::{is_plain_title, plain_title_is_taken};
use crate::models::session_models;
use crate::permissions::PermissionResponseView;
use crate::prompt_events::prompt_step;
use crate::prompt_state::{
    EffectView, PermissionResolutionView, PromptStateView, command_runs, names_command,
    permission_resolved, stopped,
};
use crate::prompts::{
    PromptPlanView, guidance_prompt, prompt_plan, slash_command, slash_command_is_read_back,
};
use crate::protocol::{
    ErrorKindView, ErrorView, OpView, PromptResultView, ReviewTargetView, SessionUpdateView,
    ToolCallContentView, ToolCallStatus, UserInputView,
};
use crate::replay::{RolloutItemView, rollout_replayed};
use crate::session_config::current_mode;
use crate::text::{CharClass, is_white, is_word, trimmed, without_leading};
use crate::title::prompt_text;
use vstd::prelude::*;

verus! {

/// Cancelling interrupts the thread, and ending the session shuts it down; either way no
/// permission request waits any longer, while nothing else of the submissions changes.
pub proof fn cancelling_interrupts(
    before: ThreadActorView,
    after: ThreadActorView,
    choice: ModelChoiceView,
    init_prompt: Seq<char>,
    outcome: MessageOutcomeView,
    shutdown: bool,
)
    requires
        message_handled(
            before,
            after,
            if shutdown {
                ThreadMessageView::Shutdown
            } else {
                ThreadMessageView::Cancel
            },
            choice,
            init_prompt,
            outcome,
        ),
    ensures
        outcome == (MessageOutcomeView::Submit {
            notice: None,
            op: if shutdown {
                OpView::Shutdown
            } else {
                OpView::Interrupt
            },
            then_apply: PendingView::Nothing,
        }),
        after.submissions.dom() == before.submissions.dom(),
        after.config == before.config,
        forall|id: Seq<char>| #[trigger]
            before.submissions.contains_key(id) ==> after.submissions[id] == (PromptStateView {
                pending_permission_interactions: Map::empty(),
                ..before.submissions[id]
            }),
{
}

/// Stopping a tool that runs interrupts the thread and tells the client, once for each submission
/// that runs it, that the tool failed because it was stopped.
pub proof fn stopped_tool_is_told(
    before: ThreadActorView,
    after: ThreadActorView,
    tool_call_id: Seq<char>,
    choice: ModelChoiceView,
    init_prompt: Seq<char>,
    outcome: MessageOutcomeView,
)
    requires
        message_handled(
            before,
            after,
            ThreadMessageView::StopTool { tool_call_id },
            choice,
            init_prompt,
            outcome,
        ),
    ensures
        outcome matches MessageOutcomeView::Stopped { notices, op } && ({
            &&& op is Some <==> notices.len() > 0
            &&& op is Some ==> op == Some(OpView::Interrupt)
            &&& forall|i: int|
                0 <= i < notices.len() ==> {
                    let notice = #[trigger] notices[i];
                    let update = notice->Notify_0.update->ToolCallUpdate_0;
                    let output = update.raw_output->Some_0->Object_0;
                    &&& notice is Notify && notice->Notify_0.meta is None
                    &&& notice->Notify_0.update is ToolCallUpdate
                    &&& update.id == tool_call_id
                    &&& update.status == Some(ToolCallStatus::Failed)
                    &&& update.content->Some_0.len() == 1 && update.content->Some_0[0]
                        == ToolCallContentView::Text("Tool stopped by user"@)
                    &&& field(output, "interrupted"@) == Some(JsonView::Bool(true))
                    &&& field(output, "reason"@) == Some(JsonView::Text("tool stopped by user"@))
                }
        }),
{
    reveal_with_fuel(field, 3);
    reveal_strlit("interrupted");
    reveal_strlit("reason");
    assert("interrupted"@.len() == 11 && "reason"@.len() == 6);
}

/// A stopped tool no longer runs under any of the ways in which it could be shown, and everything
/// that is shown under another tool call stays.
pub proof fn only_the_stopped_tool_stops(
    before: ThreadActorView,
    after: ThreadActorView,
    tool_call_id: Seq<char>,
    other: Seq<char>,
    id: Seq<char>,
    choice: ModelChoiceView,
    init_prompt: Seq<char>,
    outcome: MessageOutcomeView,
)
    requires
        message_handled(
            before,
            after,
            ThreadMessageView::StopTool { tool_call_id },
            choice,
            init_prompt,
            outcome,
        ),
        before.submissions.contains_key(id),
        other != tool_call_id,
    ensures
        ({
            let was = before.submissions[id];
            let now = after.submissions[id];
            &&& after.submissions.contains_key(id)
            &&& now.active_web_search != Some(tool_call_id)
            &&& was.active_web_search != Some(tool_call_id) ==> now.active_web_search
                == was.active_web_search
            &&& !now.active_image_generations.contains(tool_call_id)
            &&& !now.active_agent_owned_tools.contains(tool_call_id)
            &&& now.active_image_generations.contains(other)
                == was.active_image_generations.contains(other)
            &&& now.active_agent_owned_tools.contains(other)
                == was.active_agent_owned_tools.contains(other)
            &&& !now.active_commands.contains_key(tool_call_id)
            &&& was.active_commands.contains_key(other) && was.active_commands[other].tool_call_id
                == other ==> now.active_commands.contains_key(other) && now.active_commands[other]
                == was.active_commands[other]
            &&& was.active_guardian_assessments.contains_key(other)
                && was.active_guardian_assessments[other] != tool_call_id
                ==> now.active_guardian_assessments.contains_key(other)
            &&& was.active_commands.contains_key(tool_call_id) || was.active_web_search == Some(
                tool_call_id,
            ) || was.active_image_generations.contains(tool_call_id)
                || was.active_agent_owned_tools.contains(tool_call_id)
                ==> now.stopped_agent_owned_tools == was.stopped_agent_owned_tools.insert(
                tool_call_id,
            )
            &&& (forall|key: Seq<char>| #[trigger]
                was.active_guardian_assessments.contains_key(key)
                    && was.active_guardian_assessments[key] == tool_call_id ==> key == other)
                && was.active_guardian_assessments.contains_key(other)
                && was.active_guardian_assessments[other] == tool_call_id
                ==> !now.active_guardian_assessments.contains_key(other)
            &&& now.pending_permission_interactions == was.pending_permission_interactions
            &&& now.response_open == was.response_open
            &&& now.agent_message_text == was.agent_message_text
        }),
{
    let was = before.submissions[id];
    let now = after.submissions[id];
    assert(stopped(was, now, tool_call_id));
    if command_runs(was, tool_call_id) {
        let key = choose|key: Seq<char>| #[trigger]
            names_command(was, tool_call_id, key) && now.active_commands
                == was.active_commands.remove(key);
        assert(names_command(was, tool_call_id, key));
    }
}

/// The commands that a prompt can begin with do what they say: each of them by its name, with what
/// follows the name; any other, and one that lacks what it needs, is submitted as it was written.
pub proof fn commands_do_what_they_say(
    name: Seq<char>,
    rest: Seq<char>,
    more: Seq<UserInputView>,
    init_prompt: Seq<char>,
)
    requires
        is_word(name),
    ensures
        ({
            let items = seq![UserInputView::Text("/"@ + name + " "@ + rest)] + more;
            let plan = prompt_plan(items, init_prompt);
            let target = plan->op->Review_target;
            let said = trimmed(without_leading(rest, CharClass::White));
            let empty = without_leading(rest, CharClass::White).len() == 0;
            &&& name == "compact"@ ==> (plan matches PromptPlanView::Submit { notice, op, .. } && op
                == OpView::Compact && notice is Some)
            &&& name == "init"@ ==> (plan matches PromptPlanView::Submit { notice, op, .. }
                && notice is None && op == OpView::UserInput {
                items: seq![UserInputView::Text(init_prompt)],
            })
            &&& name == "review"@ ==> plan is Submit && plan->op is Review && (if said.len() == 0 {
                target == ReviewTargetView::UncommittedChanges
            } else {
                target == ReviewTargetView::Custom { instructions: said }
            })
            &&& name == "review-branch"@ && !empty ==> plan is Submit && plan->op is Review
                && target == (ReviewTargetView::BaseBranch { branch: said })
            &&& name == "review-commit"@ && !empty ==> plan is Submit && plan->op is Review
                && target == (ReviewTargetView::Commit { sha: said, title: None })
            &&& name == "logout"@ ==> plan is Logout
            &&& name != "compact"@ && name != "init"@ && name != "review"@ && name
                != "review-branch"@ && name != "review-commit"@ && name != "logout"@ ==> (
            plan matches PromptPlanView::Submit { notice, op, .. } && notice is None && op
                == OpView::UserInput { items })
            &&& (name == "review-branch"@ || name == "review-commit"@) && empty ==> (
            plan matches PromptPlanView::Submit { notice, op, .. } && notice is None && op
                == OpView::UserInput { items })
        }),
{
    let items = seq![UserInputView::Text("/"@ + name + " "@ + rest)] + more;
    slash_command_is_read_back(name, rest);
    assert(items[0] == UserInputView::Text("/"@ + name + " "@ + rest));
    reveal_strlit("compact");
    reveal_strlit("init");
    reveal_strlit("review");
    reveal_strlit("review-branch");
    reveal_strlit("review-commit");
    reveal_strlit("logout");
    assert("compact"@.len() == 7 && "init"@.len() == 4 && "review"@.len() == 6);
    assert("review-branch"@.len() == 13 && "review-commit"@.len() == 13);
    assert("review-branch"@[7] == 'b' && "review-commit"@[7] == 'c');
    assert("logout"@.len() == 6 && "logout"@[0] == 'l' && "review"@[0] == 'r');
}

/// A prompt that does not begin with a slash is submitted item for item, without a notice.
pub proof fn plain_prompt_is_submitted(items: Seq<UserInputView>, init_prompt: Seq<char>)
    requires
        items.len() > 0 ==> (items[0] matches UserInputView::Text(text) ==> text.len() == 0
            || text[0] != '/'),
    ensures
        prompt_plan(items, init_prompt) == (PromptPlanView::Submit {
            notice: None,
            op: OpView::UserInput { items },
            prompt_text: prompt_text(items),
        }),
{
}

/// A slash that no word follows at once is no command.
pub proof fn bare_slash_is_no_command(
    white: char,
    rest: Seq<char>,
    more: Seq<UserInputView>,
    init_prompt: Seq<char>,
)
    requires
        is_white(white),
    ensures
        ({
            let text = seq!['/', white] + rest;
            let items = seq![UserInputView::Text(text)] + more;
            &&& slash_command(text) is None
            &&& slash_command(seq!['/']) is None
            &&& prompt_plan(items, init_prompt) == (PromptPlanView::Submit {
                notice: None,
                op: OpView::UserInput { items },
                prompt_text: prompt_text(items),
            })
        }),
{
    let text = seq!['/', white] + rest;
    let items = seq![UserInputView::Text(text)] + more;
    assert(text.drop_first().first() == white);
    assert(seq!['/'].drop_first().len() == 0);
    assert(items[0] == UserInputView::Text(text));
}

/// Compacting is announced before it is done.
pub proof fn compacting_is_announced(init_prompt: Seq<char>)
    ensures
        ({
            let plan = prompt_plan(seq![UserInputView::Text("/"@ + "compact"@)], init_prompt);
            let notice = plan->Submit_notice->Some_0;
            let meta = notice.meta->Some_0;
            &&& plan is Submit && plan->Submit_notice is Some && notice.meta is Some
            &&& notice.update == SessionUpdateView::SessionInfo { title: None }
            &&& field(meta, "kodex.ai/contextCompaction"@) matches Some(JsonView::Object(phase))
                && field(phase, "phase"@) == Some(JsonView::Text("started"@)) && field(
                phase,
                "message"@,
            ) == Some(JsonView::Text("正在压缩上下文"@))
            &&& plan->op == OpView::Compact
        }),
{
    reveal_with_fuel(field, 3);
    reveal_strlit("phase");
    reveal_strlit("message");
    assert("phase"@.len() == 5 && "message"@.len() == 7);
    reveal_strlit("compact");
    assert("compact"@.len() == 7);
    assert("compact"@[0] == 'c' && "compact"@[1] == 'o' && "compact"@[2] == 'm' && "compact"@[3]
        == 'p');
    assert("compact"@[4] == 'a' && "compact"@[5] == 'c' && "compact"@[6] == 't');
    assert(is_word("compact"@));
    slash_command_is_read_back("compact"@, Seq::empty());
}

/// A prompt is kept under the identifier that the thread gives it, waited for, with what the user
/// wrote; the thread that refuses it leaves nothing behind.
pub proof fn accepted_prompt_is_waited_for(
    before: ThreadActorView,
    after: ThreadActorView,
    items: Seq<UserInputView>,
    choice: ModelChoiceView,
    init_prompt: Seq<char>,
    outcome: MessageOutcomeView,
    id: Seq<char>,
    refusal: Seq<char>,
)
    requires
        message_handled(
            before,
            after,
            ThreadMessageView::Prompt { items },
            choice,
            init_prompt,
            outcome,
        ),
    ensures
        after == before,
        outcome is Submit || outcome is Logout,
        outcome matches MessageOutcomeView::Submit { notice, op, then_apply } ==> ({
            let accepted = submission_answered(after, then_apply, Ok(id));
            let turn = accepted.submissions[id];
            &&& accepted.submissions.contains_key(id)
            &&& turn.submission_id == id
            &&& turn.response_open
            &&& turn.prompt_text == prompt_text(items)
            &&& turn.agent_message_text.len() == 0
            &&& turn.pending_permission_interactions.dom() == Set::<Seq<char>>::empty()
            &&& turn.active_commands.dom() == Set::<Seq<char>>::empty()
            &&& turn.active_web_search is None
            &&& turn.active_image_generations == Set::<Seq<char>>::empty()
            &&& turn.active_guardian_assessments.dom() == Set::<Seq<char>>::empty()
            &&& turn.commentary_message_item_ids == Set::<Seq<char>>::empty()
            &&& turn.next_permission_interaction_id == 0
            &&& !turn.seen_final_message_deltas && !turn.seen_commentary_message_deltas
                && !turn.seen_reasoning_deltas
            &&& accepted.submissions.remove(id) == before.submissions.remove(id)
            &&& accepted.config == before.config
            &&& left_to_do(accepted, then_apply) == Ok::<AcceptedView, ErrorView>(
                AcceptedView::Done,
            )
            &&& submission_answered(after, then_apply, Err(refusal)) == before
            &&& PromptPlanView::Submit { notice, op, prompt_text: prompt_text(items) }
                == prompt_plan(items, init_prompt)
        }),
{
    if let MessageOutcomeView::Submit { notice, op, then_apply } = outcome {
        let accepted = submission_answered(after, then_apply, Ok(id));
        assert(accepted.submissions.remove(id) =~= before.submissions.remove(id));
        assert(accepted.submissions[id].active_commands.dom() =~= Set::empty());
        assert(accepted.submissions[id].active_guardian_assessments.dom() =~= Set::empty());
        assert(accepted.submissions[id].pending_permission_interactions.dom() =~= Set::empty());
    }
}

/// A session is loaded with its models, its modes and its options as they are, and the options
/// alone are the same ones.
pub proof fn loading_tells_the_options(
    before: ThreadActorView,
    loaded: ThreadActorView,
    asked: ThreadActorView,
    choice: ModelChoiceView,
    init_prompt: Seq<char>,
    load: MessageOutcomeView,
    options: MessageOutcomeView,
)
    requires
        message_handled(before, loaded, ThreadMessageView::Load, choice, init_prompt, load),
        message_handled(
            before,
            asked,
            ThreadMessageView::GetConfigOptions,
            choice,
            init_prompt,
            options,
        ),
    ensures
        loaded == before,
        asked == before,
        load matches MessageOutcomeView::Loaded(response) && options == MessageOutcomeView::Options(
            response.config_options,
        ) && ({
            let state = session_models(
                before.config,
                choice.presets,
                before.provider_entries,
                choice.current_model,
            );
            &&& response.models == state
            &&& response.config_options == session_options(
                before.config,
                before.presets,
                choice.presets,
                before.provider_entries,
                choice.current_model,
            )
            &&& response.modes == session_modes(
                before.config,
                before.presets,
            )
            &&& response.modes is Some <==> current_mode(
                before.presets,
                before.config,
            ) is Some
            &&& response.modes matches Some(modes) ==> response.config_options.len() > 0
                && response.config_options[0].id == "mode"@
                && response.config_options[0].current_value == modes.current_mode_id
                && modes.available_modes.len() == before.presets.len()
        }),
{
    session_options_are_known(
        before.config,
        before.presets,
        choice.presets,
        before.provider_entries,
        choice.current_model,
    );
}

/// The history is told again item by item, in its order, as seen from the session's directory.
pub proof fn history_is_told_in_order(
    before: ThreadActorView,
    after: ThreadActorView,
    history: Seq<RolloutItemView>,
    item: RolloutItemView,
    choice: ModelChoiceView,
    init_prompt: Seq<char>,
    shorter: MessageOutcomeView,
    longer: MessageOutcomeView,
)
    requires
        message_handled(
            before,
            after,
            ThreadMessageView::ReplayHistory { history },
            choice,
            init_prompt,
            shorter,
        ),
        message_handled(
            before,
            after,
            ThreadMessageView::ReplayHistory { history: history.push(item) },
            choice,
            init_prompt,
            longer,
        ),
    ensures
        shorter is Replay,
        longer == MessageOutcomeView::Replay(
            shorter->Replay_0 + rollout_replayed(item, before.config.cwd),
        ),
        history.len() == 0 ==> shorter->Replay_0.len() == 0,
{
    assert(history.push(item).drop_last() =~= history);
}

/// An event goes to the submission whose identifier it has, and tells there what it tells in any
/// turn.
pub proof fn event_goes_to_its_submission(
    s: ThreadActorView,
    client: Option<Seq<(Seq<char>, JsonView)>>,
    event: EventView,
)
    requires
        s.submissions.contains_key(event.id),
        !(event.msg is SessionConfigured),
    ensures
        ({
            let (state, effects) = prompt_step(s.submissions[event.id], client, event.msg);
            let (after, told) = event_routed(s, client, event);
            &&& told == effects
            &&& after.submissions[event.id] == state
            &&& after.session_title == s.session_title
            &&& after.config == s.config
        }),
{
    let effects = prompt_step(s.submissions[event.id], client, event.msg).1;
    assert(Seq::<EffectView>::empty() + effects =~= effects);
}

/// The name that a thread is configured with becomes the title of the session, where it is one and
/// is not shown already.
pub proof fn configured_name_becomes_the_title(s: ThreadActorView, name: Seq<char>)
    requires
        is_plain_title(name),
        name.len() <= 60,
    ensures
        ({
            let (after, effects) = global_event(
                s,
                EventMsgView::SessionConfigured { thread_name: Some(name) },
            );
            let (silent, nothing) = global_event(
                s,
                EventMsgView::SessionConfigured { thread_name: None },
            );
            &&& after == (ThreadActorView { session_title: Some(name), ..s })
            &&& s.session_title == Some(name) ==> effects.len() == 0
            &&& s.session_title != Some(name) ==> effects.len() == 1 && (effects[0] matches
                EffectView::Notify(message) && message.meta is None && message.update
                == SessionUpdateView::SessionInfo { title: Some(name) })
            &&& silent == s && nothing.len() == 0
        }),
{
    plain_title_is_taken(name);
}

/// An answer to a permission request is submitted as the submission resolves it, with the guidance
/// that follows it; a request that failed answers the submission with the failure.
pub proof fn answer_is_submitted_as_resolved(
    s: ThreadActorView,
    submission_id: Seq<char>,
    interaction_id: u64,
    request_key: Seq<char>,
    response: PermissionResponseView,
    error: ErrorView,
)
    requires
        s.submissions.contains_key(submission_id),
    ensures
        ({
            let turn = s.submissions[submission_id];
            let (state, resolution) = permission_resolved(
                turn,
                interaction_id,
                request_key,
                Ok(response),
            );
            let (after, outcome) = answer_routed(
                s,
                submission_id,
                interaction_id,
                request_key,
                PermissionAnswerView::Answered(response),
            );
            let failed = answer_routed(
                s,
                submission_id,
                interaction_id,
                request_key,
                PermissionAnswerView::Failed(error),
            ).1;
            &&& resolution matches PermissionResolutionView::Resolved { op, followup } ==> outcome
                == (ActorResolutionView::Submit { op, followup })
                && after.submissions[submission_id] == state
            &&& resolution is Ignored ==> outcome is Ignored && failed is Ignored
            &&& resolution is Resolved && turn.response_open ==> failed
                == ActorResolutionView::Failed(
                seq![EffectView::Respond(PromptResultView::Failed(error))],
            )
        }),
{
}

/// The configuration options are told again after a mode or a model was chosen by a message of its
/// own, and after no other message.
pub proof fn options_are_told_after_a_choice(message: ThreadMessageView)
    ensures
        tells_options(message) <==> message is SetMode || message is SetModel,
{
}

/// Guidance goes on as a prompt of one text, without the white space around it.
pub proof fn guidance_goes_on_as_a_prompt(guidance: Seq<char>)
    ensures
        trimmed(guidance).len() == 0 ==> guidance_prompt(guidance) is None,
        trimmed(guidance).len() > 0 ==> (guidance_prompt(guidance) matches Some(
            OpView::UserInput { items },
        ) && items.len() == 1 && items[0] == UserInputView::Text(trimmed(guidance))),
{
}

/// A submission that is answered, or that nobody waits for, is forgotten with everything in it;
/// the others stay as they are, and so does the rest of the session.
pub proof fn only_open_submissions_stay(s: ThreadActorView, closed: Set<Seq<char>>, id: Seq<char>)
    ensures
        ({
            let after = still_active(s, closed);
            &&& after == (ThreadActorView { submissions: after.submissions, ..s })
            &&& after.submissions.contains_key(id) <==> s.submissions.contains_key(id)
                && s.submissions[id].response_open && !closed.contains(id)
            &&& after.submissions.contains_key(id) ==> after.submissions[id] == s.submissions[id]
        }),
{
}

/// A submission that fails is answered with the error, once, and no other is touched. Where an
/// event fails what waits for the client goes on waiting; where an answer cannot be submitted
/// nothing waits any longer. A submission that is gone is not answered.
pub proof fn failure_answers_its_submission(
    s: ThreadActorView,
    id: Seq<char>,
    other: Seq<char>,
    error: ErrorView,
)
    requires
        s.submissions.contains_key(id),
        !s.submissions.contains_key(other),
    ensures
        ({
            let turn = s.submissions[id];
            let (event, event_effects) = failed_by_event(s, id, error);
            let (answer, answer_effects) = failed_by_resolution(s, id, error);
            &&& turn.response_open ==> event_effects.len() == 1 && event_effects[0]
                == EffectView::Respond(PromptResultView::Failed(error))
            &&& !turn.response_open ==> event_effects.len() == 0 && answer_effects.len() == 0
            &&& answer_effects == event_effects
            &&& event.submissions[id] == (PromptStateView { response_open: false, ..turn })
            &&& answer.submissions[id] == (PromptStateView {
                response_open: false,
                pending_permission_interactions: Map::empty(),
                ..turn
            })
            &&& event.submissions.remove(id) == s.submissions.remove(id)
            &&& answer.submissions.remove(id) == s.submissions.remove(id)
            &&& event.config == s.config && answer.config == s.config
            &&& failed_by_event(s, other, error).0 == s && failed_by_event(
                s,
                other,
                error,
            ).1.len() == 0
            &&& failed_by_resolution(s, other, error).0 == s && failed_by_resolution(
                s,
                other,
                error,
            ).1.len() == 0
        }),
{
    let event = failed_by_event(s, id, error).0;
    let answer = failed_by_resolution(s, id, error).0;
    assert(event.submissions.remove(id) =~= s.submissions.remove(id));
    assert(answer.submissions.remove(id) =~= s.submissions.remove(id));
}

/// What the thread refuses is answered with an internal error that says why; what it accepts is
/// done, but for a mode, which is then configured.
pub proof fn refusal_of_the_thread_is_told(
    s: ThreadActorView,
    pending: PendingView,
    id: Seq<char>,
    message: Seq<char>,
)
    ensures
        submission_reply(s, pending, Err(message)) matches Err(error) && error.kind
            == ErrorKindView::InternalError && error.data == Some(
            JsonView::Text(message),
        ),
        !(pending is Mode) ==> submission_reply(s, pending, Ok(id)) == Ok::<
            AcceptedView,
            ErrorView,
        >(AcceptedView::Done),
        submission_answered(s, pending, Err(message)) == s,
{
}

/// The commands that are offered are those that a prompt is understood to begin with, by their
/// names; those that can be given something say what.
pub proof fn offered_commands_are_understood(
    name: Seq<char>,
    rest: Seq<char>,
    init_prompt: Seq<char>,
)
    requires
        is_word(name),
        without_leading(rest, CharClass::White).len() > 0,
    ensures
        ({
            let commands = offered_commands();
            let items = seq![UserInputView::Text("/"@ + name + " "@ + rest)];
            let as_written = PromptPlanView::Submit {
                notice: None,
                op: OpView::UserInput { items },
                prompt_text: prompt_text(items),
            };
            &&& (forall|i: int| 0 <= i < commands.len() ==> (#[trigger] commands[i]).name != name)
                ==> prompt_plan(items, init_prompt) == as_written
            &&& (exists|i: int| 0 <= i < commands.len() && (#[trigger] commands[i]).name == name)
                && name != "init"@ ==> prompt_plan(items, init_prompt) != as_written
            &&& commands.len() == 6
            &&& forall|i: int|
                0 <= i < commands.len() ==> ((#[trigger] commands[i]).input_hint is Some
                    <==> commands[i].name == "review"@ || commands[i].name == "review-branch"@
                    || commands[i].name == "review-commit"@) && commands[i].description.len() > 0
        }),
{
    let commands = offered_commands();
    let items = seq![UserInputView::Text("/"@ + name + " "@ + rest)];
    let none: Seq<UserInputView> = seq![];
    commands_do_what_they_say(name, rest, none, init_prompt);
    assert(items + none =~= items);
    reveal_strlit("compact");
    reveal_strlit("init");
    reveal_strlit("review");
    reveal_strlit("review-branch");
    reveal_strlit("review-commit");
    reveal_strlit("logout");
    assert("compact"@.len() == 7 && "init"@.len() == 4 && "review"@.len() == 6);
    assert("review-branch"@.len() == 13 && "review-commit"@.len() == 13);
    assert("review-branch"@[7] == 'b' && "review-commit"@[7] == 'c');
    assert("logout"@.len() == 6 && "logout"@[0] == 'l' && "review"@[0] == 'r');
    reveal_strlit("Review my current changes and find issues");
    reveal_strlit("Review the code changes against a specific branch");
    reveal_strlit("Review the code changes introduced by a commit");
    reveal_strlit("create an AGENTS.md file with instructions for Codex");
    reveal_strlit("summarize conversation to prevent hitting the context limit");
    reveal_strlit("logout of Codex");
    assert(commands[0].name == "review"@);
    assert(commands[1].name == "review-branch"@);
    assert(commands[2].name == "review-commit"@);
    assert(commands[3].name == "init"@);
    assert(commands[4].name == "compact"@);
    assert(commands[5].name == "logout"@);
}

/// A saved title is listed without the white space around it, unless nothing is left of it or it
/// only repeats the first message.
pub proof fn saved_title_is_listed(title: Seq<char>, message: Seq<char>)
    ensures
        trimmed(title).len() == 0 ==> distinct_title(title, None) is None && distinct_title(
            title,
            Some(message),
        ) is None,
        trimmed(title).len() > 0 ==> distinct_title(title, None) == Some(trimmed(title)),
        trimmed(title).len() > 0 && trimmed(message) == trimmed(title) ==> distinct_title(
            title,
            Some(message),
        ) is None,
        trimmed(title).len() > 0 && trimmed(message) != trimmed(title) ==> distinct_title(
            title,
            Some(message),
        ) == Some(trimmed(title)),
{
}

/// The instructions of a session are those that were given, then how files are edited, then the
/// rules for the work; each is a paragraph of its own, and a block that is there already is not
/// repeated.
pub proof fn instructions_come_in_order(given: Seq<char>)
    ensures
        ({
            let editing = KODEX_FILE_EDITING_DEVELOPER_INSTRUCTIONS@;
            let rules = KODEX_ENGINEERING_DEVELOPER_RULES@;
            let edited = given + "\n\n"@ + editing;
            &&& given.len() > 0 && !contains_text(given, editing) && !contains_text(edited, rules)
                ==> merged_instructions(Some(given)) == edited + "\n\n"@ + rules
            &&& given.len() > 0 && !contains_text(given, editing) && contains_text(edited, rules)
                ==> merged_instructions(Some(given)) == edited
            &&& given.len() > 0 && contains_text(given, editing) && !contains_text(given, rules)
                ==> merged_instructions(Some(given)) == given + "\n\n"@ + rules
            &&& contains_text(given, editing) && contains_text(given, rules)
                ==> merged_instructions(Some(given)) == given
            &&& merged_instructions(None) == merged_instructions(Some(Seq::empty()))
            &&& !contains_text(Seq::empty(), editing) && editing.len() > 0 && !contains_text(
                editing,
                rules,
            ) ==> merged_instructions(None) == editing + "\n\n"@ + rules
        }),
{
}

} // verus!
