//! What is told to the client: notifications and their metadata.
use crate::collections::{add_item, empty, one, two};
use crate::events::{TokenUsage, TokenUsageView};
use crate::json::{Json, JsonView, field, get_field, number, text_value, whole_number};
use crate::protocol::{
    Notification, NotificationView, PlanEntry, PlanEntryPriority, PlanEntryView, PlanItem,
    PlanItemView, SessionUpdate, SessionUpdateView, ToolCall, ToolCallStatus, ToolCallUpdate,
    ToolCallUpdateView, ToolCallView, ToolKind,
};
use crate::text::same;
use vstd::prelude::*;

verus! {

pub const KODEX_CONTEXT_COMPACTION_META_KEY: &'static str = "kodex.ai/contextCompaction";

pub const KODEX_CONTEXT_COMPACTED_META_KEY: &'static str = "kodex.ai/contextCompacted";

pub const KODEX_TOOL_STOP_META_KEY: &'static str = "kodex.ai/toolStop";

pub const KODEX_USAGE_META_KEY: &'static str = "kodex.ai/usage";

/// What the client says of itself.
#[derive(Debug, PartialEq)]
pub struct ClientCapabilities {
    pub meta: Option<Vec<(String, Json)>>,
}

impl DeepView for ClientCapabilities {
    type V = Option<Seq<(Seq<char>, JsonView)>>;

    open spec fn deep_view(&self) -> Option<Seq<(Seq<char>, JsonView)>> {
        self.meta.deep_view()
    }
}

/// Whether the client shows terminal output.
pub open spec fn shows_terminals(capabilities: Option<Seq<(Seq<char>, JsonView)>>) -> bool {
    capabilities is Some && field(capabilities->Some_0, "terminal_output"@) == Some(
        JsonView::Bool(true),
    )
}

impl ClientCapabilities {
    /// Whether the output of a command goes to a terminal of the client.
    pub fn supports_terminal_output(&self, terminal_output: bool) -> (supported: bool)
        ensures
            supported == (terminal_output && shows_terminals(self.deep_view())),
    {
        if !terminal_output {
            return false;
        }
        match &self.meta {
            Some(meta) => match get_field(meta, "terminal_output") {
                Some(Json::Bool(value)) => *value,
                _ => false,
            },
            None => false,
        }
    }
}

/// A notification without metadata.
pub open spec fn plain(update: SessionUpdateView) -> NotificationView {
    NotificationView { update, meta: None }
}

pub fn notification(update: SessionUpdate) -> (notification: Notification)
    ensures
        notification.deep_view() == plain(update.deep_view()),
{
    Notification { update, meta: None }
}

pub fn user_message(text: String) -> (message: Notification)
    ensures
        message.deep_view() == plain(SessionUpdateView::UserMessage(text@)),
{
    notification(SessionUpdate::UserMessage(text))
}

pub fn agent_text(text: String) -> (message: Notification)
    ensures
        message.deep_view() == plain(SessionUpdateView::AgentText(text@)),
{
    notification(SessionUpdate::AgentText(text))
}

pub fn agent_thought(text: String) -> (message: Notification)
    ensures
        message.deep_view() == plain(SessionUpdateView::AgentThought(text@)),
{
    notification(SessionUpdate::AgentThought(text))
}

pub fn session_title(title: String) -> (message: Notification)
    ensures
        message.deep_view() == plain(SessionUpdateView::SessionInfo { title: Some(title@) }),
{
    notification(SessionUpdate::SessionInfo { title: Some(title) })
}

pub fn tool_call(call: ToolCall) -> (message: Notification)
    ensures
        message.deep_view() == plain(SessionUpdateView::ToolCall(call.deep_view())),
{
    notification(SessionUpdate::ToolCall(call))
}

pub fn tool_call_update(update: ToolCallUpdate) -> (message: Notification)
    ensures
        message.deep_view() == plain(SessionUpdateView::ToolCallUpdate(update.deep_view())),
{
    notification(SessionUpdate::ToolCallUpdate(update))
}

/// A tool call that tells only what it is.
pub open spec fn new_call(
    id: Seq<char>,
    title: Seq<char>,
    kind: ToolKind,
    status: ToolCallStatus,
) -> ToolCallView {
    ToolCallView {
        id,
        title,
        kind,
        status,
        content: seq![],
        locations: seq![],
        raw_input: None,
        raw_output: None,
        meta: None,
    }
}

pub fn new_tool_call(id: String, title: String, kind: ToolKind, status: ToolCallStatus) -> (call:
    ToolCall)
    ensures
        call.deep_view() == new_call(id@, title@, kind, status),
{
    ToolCall {
        id,
        title,
        kind,
        status,
        content: empty(),
        locations: empty(),
        raw_input: None,
        raw_output: None,
        meta: None,
    }
}

/// An update that changes nothing but the status.
pub open spec fn status_update(
    id: Seq<char>,
    status: Option<ToolCallStatus>,
) -> ToolCallUpdateView {
    ToolCallUpdateView {
        id,
        kind: None,
        status,
        title: None,
        content: None,
        locations: None,
        raw_input: None,
        raw_output: None,
        meta: None,
    }
}

pub fn new_status_update(id: String, status: Option<ToolCallStatus>) -> (update: ToolCallUpdate)
    ensures
        update.deep_view() == status_update(id@, status),
{
    ToolCallUpdate {
        id,
        kind: None,
        status,
        title: None,
        content: None,
        locations: None,
        raw_input: None,
        raw_output: None,
        meta: None,
    }
}

/// A tool call of the history.
pub open spec fn completed_call(
    id: Seq<char>,
    title: Seq<char>,
    kind: ToolKind,
    raw_input: Option<JsonView>,
) -> ToolCallView {
    ToolCallView { raw_input, ..new_call(id, title, kind, ToolCallStatus::Completed) }
}

pub fn completed_tool_call(id: String, title: String, kind: ToolKind, raw_input: Option<Json>) -> (
message: Notification)
    ensures
        message.deep_view() == plain(
            SessionUpdateView::ToolCall(
                completed_call(id@, title@, kind, raw_input.deep_view()),
            ),
        ),
{
    let mut call = new_tool_call(id, title, kind, ToolCallStatus::Completed);
    call.raw_input = raw_input;
    tool_call(call)
}

/// The end of a tool call of the history.
pub open spec fn completed_update(
    id: Seq<char>,
    raw_output: Option<JsonView>,
) -> ToolCallUpdateView {
    ToolCallUpdateView { raw_output, ..status_update(id, Some(ToolCallStatus::Completed)) }
}

pub fn tool_call_completed(id: String, raw_output: Option<Json>) -> (message: Notification)
    ensures
        message.deep_view() == plain(
            SessionUpdateView::ToolCallUpdate(completed_update(id@, raw_output.deep_view())),
        ),
{
    let mut update = new_status_update(id, Some(ToolCallStatus::Completed));
    update.raw_output = raw_output;
    tool_call_update(update)
}

pub open spec fn plan_entry(item: PlanItemView) -> PlanEntryView {
    PlanEntryView { content: item.step, priority: PlanEntryPriority::Medium, status: item.status }
}

pub open spec fn plan_entries(plan: Seq<PlanItemView>) -> Seq<PlanEntryView> {
    plan.map_values(|item: PlanItemView| plan_entry(item))
}

pub fn update_plan(plan: Vec<PlanItem>) -> (message: Notification)
    ensures
        message.deep_view() == plain(SessionUpdateView::Plan(plan_entries(plan.deep_view()))),
{
    let mut entries: Vec<PlanEntry> = empty();
    let ghost all = plan.deep_view();
    for i in 0..plan.len()
        invariant
            all == plan.deep_view(),
            entries.deep_view() == plan_entries(all.take(i as int)),
    {
        assert(plan_entries(all.take(i + 1)) =~= plan_entries(all.take(i as int)).push(
            plan_entry(all[i as int]),
        ));
        add_item(
            &mut entries,
            PlanEntry {
                content: plan[i].step.clone(),
                priority: PlanEntryPriority::Medium,
                status: plan[i].status,
            },
        );
    }
    assert(all.take(all.len() as int) =~= all);
    notification(SessionUpdate::Plan(entries))
}

pub open spec fn compaction_phase(phase: Seq<char>, message: Seq<char>) -> (Seq<char>, JsonView) {
    (
        KODEX_CONTEXT_COMPACTION_META_KEY@,
        JsonView::Object(
            seq![("phase"@, JsonView::Text(phase)), ("message"@, JsonView::Text(message))],
        ),
    )
}

fn compaction_entry(phase: &str, message: &str) -> (entry: (String, Json))
    ensures
        entry.deep_view() == compaction_phase(phase@, message@),
{
    broadcast use crate::json::lemma_tree;

    (
        KODEX_CONTEXT_COMPACTION_META_KEY.to_owned(),
        Json::Object(
            two(
                ("phase".to_owned(), text_value(phase)),
                ("message".to_owned(), text_value(message)),
            ),
        ),
    )
}

/// The notice that the context was compacted.
pub open spec fn compacted_notice() -> NotificationView {
    NotificationView {
        update: SessionUpdateView::SessionInfo { title: None },
        meta: Some(
            seq![
                compaction_phase("completed"@, "上下文已自动压缩"@),
                (KODEX_CONTEXT_COMPACTED_META_KEY@, JsonView::Object(seq![])),
            ],
        ),
    }
}

pub fn context_compacted() -> (message: Notification)
    ensures
        message.deep_view() == compacted_notice(),
{
    broadcast use crate::json::lemma_tree;

    Notification {
        update: SessionUpdate::SessionInfo { title: None },
        meta: Some(
            two(
                compaction_entry("completed", "上下文已自动压缩"),
                (KODEX_CONTEXT_COMPACTED_META_KEY.to_owned(), Json::Object(empty())),
            ),
        ),
    }
}

/// The notice that the context is being compacted.
pub open spec fn compaction_notice() -> NotificationView {
    NotificationView {
        update: SessionUpdateView::SessionInfo { title: None },
        meta: Some(seq![compaction_phase("started"@, "正在压缩上下文"@)]),
    }
}

pub fn context_compaction_started() -> (message: Notification)
    ensures
        message.deep_view() == compaction_notice(),
{
    Notification {
        update: SessionUpdate::SessionInfo { title: None },
        meta: Some(one(compaction_entry("started", "正在压缩上下文"))),
    }
}

/// The metadata that tells the client how to stop a tool of the agent.
pub open spec fn tool_stop_meta(tool_call_id: Seq<char>) -> Seq<(Seq<char>, JsonView)> {
    seq![
        (
            KODEX_TOOL_STOP_META_KEY@,
            JsonView::Object(
                seq![
                    ("toolCallId"@, JsonView::Text(tool_call_id)),
                    ("stopKind"@, JsonView::Text("agent_owned"@)),
                ],
            ),
        ),
    ]
}

pub fn agent_owned_tool_stop_meta(tool_call_id: &str) -> (meta: Vec<(String, Json)>)
    ensures
        meta.deep_view() == tool_stop_meta(tool_call_id@),
{
    broadcast use crate::json::lemma_tree;

    one(
        (
            KODEX_TOOL_STOP_META_KEY.to_owned(),
            Json::Object(
                two(
                    ("toolCallId".to_owned(), text_value(tool_call_id)),
                    ("stopKind".to_owned(), text_value("agent_owned")),
                ),
            ),
        ),
    )
}

/// `meta` with the given entry: in the place of an entry with that name, else at the end.
pub open spec fn with_entry(
    meta: Seq<(Seq<char>, JsonView)>,
    name: Seq<char>,
    value: JsonView,
) -> Seq<(Seq<char>, JsonView)>
    decreases meta.len(),
{
    if meta.len() == 0 {
        seq![(name, value)]
    } else if meta[0].0 == name {
        seq![(name, value)] + meta.drop_first()
    } else {
        seq![meta[0]] + with_entry(meta.drop_first(), name, value)
    }
}

/// `base` with the entries of `extra`.
pub open spec fn merged_meta(
    base: Seq<(Seq<char>, JsonView)>,
    extra: Seq<(Seq<char>, JsonView)>,
) -> Seq<(Seq<char>, JsonView)>
    decreases extra.len(),
{
    if extra.len() == 0 {
        base
    } else {
        merged_meta(with_entry(base, extra[0].0, extra[0].1), extra.drop_first())
    }
}

fn set_entry(meta: &mut Vec<(String, Json)>, entry: (String, Json))
    ensures
        final(meta).deep_view() == with_entry(
            old(meta).deep_view(),
            entry.0@,
            entry.1.deep_view(),
        ),
{
    let ghost start = meta.deep_view();
    let n: usize = meta.len();
    let mut i: usize = 0;
    assert(start.skip(0) =~= start);
    assert(start.take(0) =~= seq![]);
    while i < n && !same(meta[i].0.as_str(), entry.0.as_str())
        invariant
            i <= n,
            n == meta@.len(),
            meta@ == old(meta)@,
            start == meta.deep_view(),
            with_entry(start, entry.0@, entry.1.deep_view()) == start.take(i as int) + with_entry(
                start.skip(i as int),
                entry.0@,
                entry.1.deep_view(),
            ),
        decreases n - i,
    {
        assert(start.skip(i as int).drop_first() =~= start.skip(i + 1));
        assert(start.take(i + 1) =~= start.take(i as int) + seq![start[i as int]]);
        assert(start.take(i as int) + (seq![start[i as int]] + with_entry(
            start.skip(i + 1),
            entry.0@,
            entry.1.deep_view(),
        )) =~= start.take(i + 1) + with_entry(
            start.skip(i + 1),
            entry.0@,
            entry.1.deep_view(),
        ));
        i += 1;
    }
    if i < n {
        proof {
            assert(start.skip(i as int)[0].0 == entry.0@);
            assert(start.skip(i as int).drop_first() =~= start.skip(i + 1));
        }
        meta.set(i, entry);
        assert(meta.deep_view() =~= start.take(i as int) + (seq![
            (entry.0@, entry.1.deep_view()),
        ] + start.skip(i + 1)));
    } else {
        meta.push(entry);
        assert(start.skip(i as int) =~= seq![]);
        assert(meta.deep_view() =~= start.take(i as int) + seq![(entry.0@, entry.1.deep_view())]);
    }
}

pub fn merge_meta(base: Vec<(String, Json)>, extra: Vec<(String, Json)>) -> (merged: Vec<
    (String, Json),
>)
    ensures
        merged.deep_view() == merged_meta(base.deep_view(), extra.deep_view()),
{
    let mut merged = base;
    let mut extra = extra;
    let ghost first = base.deep_view();
    let ghost all = extra.deep_view();
    while extra.len() > 0
        invariant
            merged_meta(first, all) == merged_meta(merged.deep_view(), extra.deep_view()),
        decreases extra@.len(),
    {
        let ghost rest = extra.deep_view();
        let entry = extra.remove(0);
        assert(extra.deep_view() =~= rest.drop_first());
        set_entry(&mut merged, entry);
    }
    assert(extra.deep_view() =~= seq![]);
    merged
}

/// The fields that describe token usage.
pub open spec fn usage_fields(usage: TokenUsageView) -> Seq<(Seq<char>, JsonView)> {
    seq![
        ("input_tokens"@, whole_number(usage.input_tokens)),
        ("cache_read_tokens"@, whole_number(usage.cached_input_tokens)),
        ("output_tokens"@, whole_number(usage.output_tokens)),
        ("reasoning_tokens"@, whole_number(usage.reasoning_output_tokens)),
        ("total_tokens"@, whole_number(usage.total_tokens)),
        ("cache_write_tokens"@, JsonView::Null),
    ]
}

fn usage_object(usage: &TokenUsage) -> (fields: Vec<(String, Json)>)
    ensures
        fields.deep_view() == usage_fields(usage.deep_view()),
{
    let fields = vec![
        ("input_tokens".to_owned(), Json::Number(number(usage.input_tokens))),
        ("cache_read_tokens".to_owned(), Json::Number(number(usage.cached_input_tokens))),
        ("output_tokens".to_owned(), Json::Number(number(usage.output_tokens))),
        ("reasoning_tokens".to_owned(), Json::Number(number(usage.reasoning_output_tokens))),
        ("total_tokens".to_owned(), Json::Number(number(usage.total_tokens))),
        ("cache_write_tokens".to_owned(), Json::Null),
    ];
    assert(fields.deep_view() =~= usage_fields(usage.deep_view()));
    fields
}

/// The metadata of a usage update: the usage of the session, and within it that of the last
/// request. A count of cache writes is not known and stays empty.
pub open spec fn usage_meta(last: TokenUsageView, total: TokenUsageView) -> Seq<
    (Seq<char>, JsonView),
> {
    seq![
        (
            KODEX_USAGE_META_KEY@,
            JsonView::Object(
                seq![
                    ("scope"@, JsonView::Text("session_total"@)),
                    ("agent_cli"@, JsonView::Text("codex-acp"@)),
                    ("provider"@, JsonView::Text("openai"@)),
                    ("model"@, JsonView::Null),
                ] + usage_fields(total) + seq![
                    ("turn_delta"@, JsonView::Object(usage_fields(last))),
                ],
            ),
        ),
    ]
}

pub fn kodex_usage_meta(last: &TokenUsage, total: &TokenUsage) -> (meta: Vec<(String, Json)>)
    ensures
        meta.deep_view() == usage_meta(last.deep_view(), total.deep_view()),
{
    broadcast use crate::json::lemma_tree;

    let mut fields = vec![
        ("scope".to_owned(), text_value("session_total")),
        ("agent_cli".to_owned(), text_value("codex-acp")),
        ("provider".to_owned(), text_value("openai")),
        ("model".to_owned(), Json::Null),
    ];
    assert(fields.deep_view() =~= seq![
        ("scope"@, JsonView::Text("session_total"@)),
        ("agent_cli"@, JsonView::Text("codex-acp"@)),
        ("provider"@, JsonView::Text("openai"@)),
        ("model"@, JsonView::Null),
    ]);
    let ghost head = fields.deep_view();
    let mut counts = usage_object(total);
    let ghost counted = counts.deep_view();
    fields.append(&mut counts);
    assert(fields.deep_view() =~= head + counted);
    add_item(&mut fields, ("turn_delta".to_owned(), Json::Object(usage_object(last))));
    assert(fields.deep_view() =~= head + counted + seq![
        ("turn_delta"@, JsonView::Object(usage_fields(last.deep_view()))),
    ]);
    one((KODEX_USAGE_META_KEY.to_owned(), Json::Object(fields)))
}

proof fn lemma_with_entry(meta: Seq<(Seq<char>, JsonView)>, name: Seq<char>, value: JsonView)
    ensures
        field(with_entry(meta, name, value), name) == Some(value),
        forall|other: Seq<char>|
            other != name ==> #[trigger] field(with_entry(meta, name, value), other) == field(
                meta,
                other,
            ),
    decreases meta.len(),
{
    let with = with_entry(meta, name, value);
    if meta.len() == 0 {
        assert forall|other: Seq<char>| other != name implies #[trigger] field(with, other)
            == field(meta, other) by {
            assert(with.drop_first() =~= meta);
        }
    } else if meta[0].0 == name {
        assert forall|other: Seq<char>| other != name implies #[trigger] field(with, other)
            == field(meta, other) by {
            assert(with.drop_first() =~= meta.drop_first());
        }
    } else {
        lemma_with_entry(meta.drop_first(), name, value);
        let rest = with_entry(meta.drop_first(), name, value);
        assert(with.drop_first() =~= rest);
        assert forall|other: Seq<char>| other != name implies #[trigger] field(with, other)
            == field(meta, other) by {
            assert(field(rest, other) == field(meta.drop_first(), other));
        }
    }
}

/// Merged metadata holds what the second part says of a name, and where that says nothing, what
/// the first part says.
pub proof fn merged_meta_holds_both(
    base: Seq<(Seq<char>, JsonView)>,
    extra: Seq<(Seq<char>, JsonView)>,
    name: Seq<char>,
)
    requires
        forall|i: int, j: int|
            0 <= i < j < extra.len() ==> (#[trigger] extra[i]).0 != (#[trigger] extra[j]).0,
    ensures
        field(merged_meta(base, extra), name) == match field(extra, name) {
            Some(value) => Some(value),
            None => field(base, name),
        },
    decreases extra.len(),
{
    if extra.len() > 0 {
        let rest = extra.drop_first();
        let with = with_entry(base, extra[0].0, extra[0].1);
        lemma_with_entry(base, extra[0].0, extra[0].1);
        merged_meta_holds_both(with, rest, name);
        if extra[0].0 == name {
            lemma_field_absent(rest, name);
        }
    }
}

proof fn lemma_field_absent(fields: Seq<(Seq<char>, JsonView)>, name: Seq<char>)
    requires
        forall|i: int| 0 <= i < fields.len() ==> (#[trigger] fields[i]).0 != name,
    ensures
        field(fields, name) is None,
    decreases fields.len(),
{
    if fields.len() > 0 {
        lemma_field_absent(fields.drop_first(), name);
    }
}

} // verus!
