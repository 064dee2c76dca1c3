//! Elicitations of MCP servers that ask for the approval of a tool call.
use crate::collections::{StringMap, add_item, empty, one, two};
use crate::events::{ElicitationRequest, ElicitationRequestView};
use crate::json::{
    Json, JsonView, compact, compact_text, field, get_field, get_text, pretty, pretty_text,
    text_field, text_value,
};
use crate::permissions::{
    ResolvedMcpElicitation, ResolvedMcpElicitationView, SupportedMcpElicitationPermissionRequest,
    SupportedMcpElicitationPermissionRequestView, elicitation_key, mcp_elicitation_request_key,
    request_id_string, request_id_text,
};
use crate::permissions::exec_options::{new_permission_option, permission_option};
use crate::protocol::{
    ElicitationAction, PermissionOption, PermissionOptionKind, PermissionOptionView, RequestId,
    RequestIdView, ToolCallContent, ToolCallContentView, ToolCallStatus, ToolCallUpdate,
    ToolCallUpdateView,
};
use crate::text::{concat2, concat4, join, joined, same, starts_with, strip_prefix, trim, trimmed};
use vstd::prelude::*;

verus! {

pub const MCP_TOOL_APPROVAL_KIND_KEY: &'static str = "codex_approval_kind";

pub const MCP_TOOL_APPROVAL_KIND_MCP_TOOL_CALL: &'static str = "mcp_tool_call";

pub const MCP_TOOL_APPROVAL_PERSIST_KEY: &'static str = "persist";

pub const MCP_TOOL_APPROVAL_PERSIST_SESSION: &'static str = "session";

pub const MCP_TOOL_APPROVAL_PERSIST_ALWAYS: &'static str = "always";

pub const MCP_TOOL_APPROVAL_TOOL_TITLE_KEY: &'static str = "tool_title";

pub const MCP_TOOL_APPROVAL_TOOL_DESCRIPTION_KEY: &'static str = "tool_description";

pub const MCP_TOOL_APPROVAL_CONNECTOR_NAME_KEY: &'static str = "connector_name";

pub const MCP_TOOL_APPROVAL_CONNECTOR_DESCRIPTION_KEY: &'static str = "connector_description";

pub const MCP_TOOL_APPROVAL_TOOL_PARAMS_KEY: &'static str = "tool_params";

pub const MCP_TOOL_APPROVAL_TOOL_PARAMS_DISPLAY_KEY: &'static str = "tool_params_display";

pub const MCP_TOOL_APPROVAL_REQUEST_ID_PREFIX: &'static str = "mcp_tool_call_approval_";

pub const MCP_TOOL_APPROVAL_ALLOW_OPTION_ID: &'static str = "approved";

pub const MCP_TOOL_APPROVAL_ALLOW_SESSION_OPTION_ID: &'static str = "approved-for-session";

pub const MCP_TOOL_APPROVAL_ALLOW_ALWAYS_OPTION_ID: &'static str = "approved-always";

pub const MCP_TOOL_APPROVAL_CANCEL_OPTION_ID: &'static str = "cancel";

pub open spec fn accepted() -> ResolvedMcpElicitationView {
    ResolvedMcpElicitationView { action: ElicitationAction::Accept, content: None, meta: None }
}

pub open spec fn accepted_with_persist(persist: Seq<char>) -> ResolvedMcpElicitationView {
    ResolvedMcpElicitationView {
        action: ElicitationAction::Accept,
        content: None,
        meta: Some(JsonView::Object(seq![("persist"@, JsonView::Text(persist))])),
    }
}

pub open spec fn elicitation_cancelled() -> ResolvedMcpElicitationView {
    ResolvedMcpElicitationView { action: ElicitationAction::Cancel, content: None, meta: None }
}

impl ResolvedMcpElicitation {
    pub fn accept() -> (resolved: Self)
        ensures
            resolved.deep_view() == accepted(),
    {
        ResolvedMcpElicitation { action: ElicitationAction::Accept, content: None, meta: None }
    }

    pub fn accept_with_persist(persist: &str) -> (resolved: Self)
        ensures
            resolved.deep_view() == accepted_with_persist(persist@),
    {
        broadcast use crate::json::lemma_tree;

        ResolvedMcpElicitation {
            action: ElicitationAction::Accept,
            content: None,
            meta: Some(Json::Object(one(("persist".to_owned(), text_value(persist))))),
        }
    }

    pub fn cancel() -> (resolved: Self)
        ensures
            resolved.deep_view() == elicitation_cancelled(),
    {
        ResolvedMcpElicitation { action: ElicitationAction::Cancel, content: None, meta: None }
    }
}

/// The metadata of an elicitation that asks for the approval of a tool call.
pub open spec fn tool_approval_meta(request: ElicitationRequestView) -> Option<
    Seq<(Seq<char>, JsonView)>,
> {
    match request {
        ElicitationRequestView::Form { meta: Some(JsonView::Object(meta)), .. } => if text_field(
            meta,
            MCP_TOOL_APPROVAL_KIND_KEY@,
        ) == Some(MCP_TOOL_APPROVAL_KIND_MCP_TOOL_CALL@) {
            Some(meta)
        } else {
            None
        },
        _ => None,
    }
}

/// Whether an approval may be kept in the way that `mode` names.
pub open spec fn may_persist(meta: Seq<(Seq<char>, JsonView)>, mode: Seq<char>) -> bool {
    match field(meta, MCP_TOOL_APPROVAL_PERSIST_KEY@) {
        Some(JsonView::Text(value)) => value == mode,
        Some(JsonView::Array(values)) => values.contains(JsonView::Text(mode)),
        _ => false,
    }
}

fn holds_text(items: &Vec<Json>, wanted: &str) -> (found: bool)
    ensures
        found == items.deep_view().contains(JsonView::Text(wanted@)),
{
    let ghost all = items.deep_view();
    for i in 0..items.len()
        invariant
            all == items.deep_view(),
            forall|k: int| 0 <= k < i ==> all[k] != JsonView::Text(wanted@),
    {
        if let Json::Text(text) = &items[i] {
            if same(text.as_str(), wanted) {
                assert(all[i as int] == JsonView::Text(wanted@));
                return true;
            }
        }
        assert(all[i as int] == items@[i as int].deep_view());
    }
    false
}

pub fn mcp_tool_approval_persist_modes(meta: &Vec<(String, Json)>) -> (modes: (bool, bool))
    ensures
        modes.0 == may_persist(meta.deep_view(), MCP_TOOL_APPROVAL_PERSIST_SESSION@),
        modes.1 == may_persist(meta.deep_view(), MCP_TOOL_APPROVAL_PERSIST_ALWAYS@),
{
    broadcast use crate::json::lemma_tree;

    match get_field(meta, MCP_TOOL_APPROVAL_PERSIST_KEY) {
        Some(Json::Text(persist)) => (
            same(persist.as_str(), MCP_TOOL_APPROVAL_PERSIST_SESSION),
            same(persist.as_str(), MCP_TOOL_APPROVAL_PERSIST_ALWAYS),
        ),
        Some(Json::Array(values)) => (
            holds_text(values, MCP_TOOL_APPROVAL_PERSIST_SESSION),
            holds_text(values, MCP_TOOL_APPROVAL_PERSIST_ALWAYS),
        ),
        _ => (false, false),
    }
}

/// The tool call that an approval request names.
pub open spec fn approval_call_id(id: RequestIdView) -> Option<Seq<char>> {
    match id {
        RequestIdView::Text(value) => if starts_with(
            value,
            MCP_TOOL_APPROVAL_REQUEST_ID_PREFIX@,
        ) {
            Some(value.skip(MCP_TOOL_APPROVAL_REQUEST_ID_PREFIX@.len() as int))
        } else {
            None
        },
        RequestIdView::Integer(_) => None,
    }
}

pub fn mcp_tool_approval_call_id(request_id: &RequestId) -> (call_id: Option<String>)
    ensures
        call_id.deep_view() == approval_call_id(request_id.deep_view()),
{
    match request_id {
        RequestId::Text(value) => match strip_prefix(
            value.as_str(),
            MCP_TOOL_APPROVAL_REQUEST_ID_PREFIX,
        ) {
            Some(rest) => Some(rest.to_owned()),
            None => None,
        },
        RequestId::Integer(_) => None,
    }
}

pub open spec fn approval_value_text(value: JsonView) -> Seq<char> {
    match value {
        JsonView::Text(text) => text,
        _ => compact_text(value),
    }
}

pub fn format_mcp_tool_approval_value(value: &Json) -> (text: String)
    ensures
        text@ == approval_value_text(value.deep_view()),
{
    match value {
        Json::Text(text) => text.clone(),
        _ => compact(value),
    }
}

/// The line that shows a parameter, if it has a name and a value.
pub open spec fn param_line(param: JsonView) -> Option<Seq<char>> {
    match param {
        JsonView::Object(fields) => {
            let name = match text_field(fields, "display_name"@) {
                Some(name) => Some(name),
                None => text_field(fields, "name"@),
            };
            match (name, field(fields, "value"@)) {
                (Some(name), Some(value)) => Some(
                    "- "@ + name + ": "@ + approval_value_text(value),
                ),
                _ => None,
            }
        },
        _ => None,
    }
}

pub open spec fn param_lines(params: Seq<JsonView>) -> Seq<Seq<char>>
    decreases params.len(),
{
    if params.len() == 0 {
        seq![]
    } else {
        match param_line(params.last()) {
            Some(line) => param_lines(params.drop_last()).push(line),
            None => param_lines(params.drop_last()),
        }
    }
}

fn display_line(param: &Json) -> (line: Option<String>)
    ensures
        line.deep_view() == param_line(param.deep_view()),
{
    broadcast use crate::json::lemma_tree;

    match param {
        Json::Object(fields) => {
            let name = match get_text(fields, "display_name") {
                Some(name) => Some(name),
                None => get_text(fields, "name"),
            };
            match name {
                Some(name) => match get_field(fields, "value") {
                    Some(value) => {
                        let shown = format_mcp_tool_approval_value(value);
                        Some(concat4("- ", name.as_str(), ": ", shown.as_str()))
                    },
                    None => None,
                },
                None => None,
            }
        },
        _ => None,
    }
}

fn display_lines(params: &Vec<Json>) -> (lines: Vec<String>)
    ensures
        lines.deep_view() == param_lines(params.deep_view()),
{
    let mut lines: Vec<String> = empty();
    let ghost all = params.deep_view();
    for i in 0..params.len()
        invariant
            all == params.deep_view(),
            lines.deep_view() == param_lines(all.take(i as int)),
    {
        assert(all.take(i + 1).drop_last() =~= all.take(i as int));
        assert(all[i as int] == params@[i as int].deep_view());
        if let Some(line) = display_line(&params[i]) {
            add_item(&mut lines, line);
        }
    }
    assert(all.take(all.len() as int) =~= all);
    lines
}

/// How the arguments of a tool call are shown: the display form where it has lines, else the
/// parameters as JSON.
pub open spec fn approval_params(meta: Seq<(Seq<char>, JsonView)>) -> Option<Seq<char>> {
    let displayed = match field(meta, MCP_TOOL_APPROVAL_TOOL_PARAMS_DISPLAY_KEY@) {
        Some(JsonView::Array(params)) => param_lines(params),
        _ => seq![],
    };
    if displayed.len() > 0 {
        Some(joined(displayed, "\n"@))
    } else {
        match field(meta, MCP_TOOL_APPROVAL_TOOL_PARAMS_KEY@) {
            Some(params) => Some(
                match pretty_text(params) {
                    Ok(text) => text,
                    Err(_) => approval_value_text(params),
                },
            ),
            None => None,
        }
    }
}

pub fn format_mcp_tool_approval_params(meta: &Vec<(String, Json)>) -> (text: Option<String>)
    ensures
        text.deep_view() == approval_params(meta.deep_view()),
{
    broadcast use crate::json::lemma_tree;

    if let Some(Json::Array(params)) = get_field(meta, MCP_TOOL_APPROVAL_TOOL_PARAMS_DISPLAY_KEY) {
        let lines = display_lines(params);
        if lines.len() > 0 {
            return Some(join(&lines, "\n"));
        }
    }
    match get_field(meta, MCP_TOOL_APPROVAL_TOOL_PARAMS_KEY) {
        Some(params) => Some(
            match pretty(params) {
                Ok(text) => text,
                Err(_) => format_mcp_tool_approval_value(params),
            },
        ),
        None => None,
    }
}

/// The text in a field, unless it is blank.
pub open spec fn filled_field(meta: Seq<(Seq<char>, JsonView)>, name: Seq<char>) -> Option<
    Seq<char>,
> {
    match text_field(meta, name) {
        Some(text) => if trimmed(text).len() > 0 {
            Some(text)
        } else {
            None
        },
        None => None,
    }
}

fn get_filled<'a>(meta: &'a Vec<(String, Json)>, name: &str) -> (text: Option<&'a String>)
    ensures
        text.deep_view() == filled_field(meta.deep_view(), name@),
{
    match get_text(meta, name) {
        Some(text) => if trim(text.as_str()).is_empty() {
            None
        } else {
            Some(text)
        },
        None => None,
    }
}

/// A list of one text where there is one.
pub open spec fn optional_section(text: Option<Seq<char>>) -> Seq<Seq<char>> {
    match text {
        Some(text) => seq![text],
        None => seq![],
    }
}

pub open spec fn approval_source(server_name: Seq<char>, meta: Seq<(Seq<char>, JsonView)>) -> Seq<
    char,
> {
    match filled_field(meta, MCP_TOOL_APPROVAL_CONNECTOR_NAME_KEY@) {
        Some(name) => "Source: "@ + name,
        None => "Server: "@ + server_name,
    }
}

/// What is told about a tool call that waits for approval, section by section.
pub open spec fn approval_content(
    server_name: Seq<char>,
    message: Seq<char>,
    meta: Seq<(Seq<char>, JsonView)>,
) -> Seq<char> {
    let arguments = match approval_params(meta) {
        Some(params) => Some("Arguments:\n"@ + params),
        None => None,
    };
    joined(
        seq![trimmed(message), approval_source(server_name, meta)] + optional_section(
            filled_field(meta, MCP_TOOL_APPROVAL_CONNECTOR_DESCRIPTION_KEY@),
        ) + optional_section(filled_field(meta, MCP_TOOL_APPROVAL_TOOL_DESCRIPTION_KEY@))
            + optional_section(arguments),
        "\n\n"@,
    )
}

pub fn format_mcp_tool_approval_content(
    server_name: &str,
    message: &str,
    meta: &Vec<(String, Json)>,
) -> (content: String)
    ensures
        content@ == approval_content(server_name@, message@, meta.deep_view()),
{
    let source = match get_filled(meta, MCP_TOOL_APPROVAL_CONNECTOR_NAME_KEY) {
        Some(name) => concat2("Source: ", name.as_str()),
        None => concat2("Server: ", server_name),
    };
    let mut sections: Vec<String> = two(trim(message).to_owned(), source);
    let ghost start = sections.deep_view();
    let connector = get_filled(meta, MCP_TOOL_APPROVAL_CONNECTOR_DESCRIPTION_KEY);
    if let Some(description) = connector {
        add_item(&mut sections, description.clone());
    }
    assert(sections.deep_view() =~= start + optional_section(connector.deep_view()));
    let ghost start = sections.deep_view();
    let tool = get_filled(meta, MCP_TOOL_APPROVAL_TOOL_DESCRIPTION_KEY);
    if let Some(description) = tool {
        add_item(&mut sections, description.clone());
    }
    assert(sections.deep_view() =~= start + optional_section(tool.deep_view()));
    let ghost start = sections.deep_view();
    let ghost arguments: Option<Seq<char>> = None;
    let params = format_mcp_tool_approval_params(meta);
    proof {
        arguments =
        match approval_params(meta.deep_view()) {
            Some(params) => Some("Arguments:\n"@ + params),
            None => None,
        };
    }
    if let Some(params) = &params {
        add_item(&mut sections, concat2("Arguments:\n", params.as_str()));
    }
    assert(sections.deep_view() =~= start + optional_section(arguments));
    join(&sections, "\n\n")
}

/// The options of a tool call approval: those that keep the approval only where that is allowed.
pub open spec fn approval_options(session: bool, always: bool) -> Seq<PermissionOptionView> {
    let allow = seq![
        permission_option(
            MCP_TOOL_APPROVAL_ALLOW_OPTION_ID@,
            "Allow"@,
            PermissionOptionKind::AllowOnce,
        ),
    ];
    let with_session = if session {
        allow.push(
            permission_option(
                MCP_TOOL_APPROVAL_ALLOW_SESSION_OPTION_ID@,
                "Allow for this session"@,
                PermissionOptionKind::AllowAlways,
            ),
        )
    } else {
        allow
    };
    let with_always = if always {
        with_session.push(
            permission_option(
                MCP_TOOL_APPROVAL_ALLOW_ALWAYS_OPTION_ID@,
                "Allow and don't ask again"@,
                PermissionOptionKind::AllowAlways,
            ),
        )
    } else {
        with_session
    };
    with_always.push(
        permission_option(
            MCP_TOOL_APPROVAL_CANCEL_OPTION_ID@,
            "Cancel"@,
            PermissionOptionKind::RejectOnce,
        ),
    )
}

/// What each option of a tool call approval means.
pub open spec fn approval_option_map(session: bool, always: bool) -> Map<
    Seq<char>,
    ResolvedMcpElicitationView,
> {
    let allow = map![MCP_TOOL_APPROVAL_ALLOW_OPTION_ID@ => accepted()];
    let with_session = if session {
        allow.insert(
            MCP_TOOL_APPROVAL_ALLOW_SESSION_OPTION_ID@,
            accepted_with_persist(MCP_TOOL_APPROVAL_PERSIST_SESSION@),
        )
    } else {
        allow
    };
    let with_always = if always {
        with_session.insert(
            MCP_TOOL_APPROVAL_ALLOW_ALWAYS_OPTION_ID@,
            accepted_with_persist(MCP_TOOL_APPROVAL_PERSIST_ALWAYS@),
        )
    } else {
        with_session
    };
    with_always.insert(MCP_TOOL_APPROVAL_CANCEL_OPTION_ID@, elicitation_cancelled())
}

pub open spec fn approval_tool_call_id(id: RequestIdView) -> Seq<char> {
    match approval_call_id(id) {
        Some(call_id) => call_id,
        None => "mcp-elicitation:"@ + request_id_text(id),
    }
}

pub open spec fn approval_title(meta: Seq<(Seq<char>, JsonView)>) -> Seq<char> {
    match filled_field(meta, MCP_TOOL_APPROVAL_TOOL_TITLE_KEY@) {
        Some(title) => "Approve "@ + title,
        None => "Approve MCP tool call"@,
    }
}

pub open spec fn elicitation_message(request: ElicitationRequestView) -> Seq<char> {
    match request {
        ElicitationRequestView::Form { message, .. } => message,
        ElicitationRequestView::Url => Seq::empty(),
    }
}

/// The permission request for an elicitation, where it asks for the approval of a tool call.
pub open spec fn supported_elicitation(
    server_name: Seq<char>,
    id: RequestIdView,
    request: ElicitationRequestView,
    raw_input: JsonView,
) -> Option<SupportedMcpElicitationPermissionRequestView> {
    match tool_approval_meta(request) {
        None => None,
        Some(meta) => {
            let session = may_persist(meta, MCP_TOOL_APPROVAL_PERSIST_SESSION@);
            let always = may_persist(meta, MCP_TOOL_APPROVAL_PERSIST_ALWAYS@);
            Some(
                SupportedMcpElicitationPermissionRequestView {
                    request_key: elicitation_key(server_name, id),
                    tool_call: ToolCallUpdateView {
                        id: approval_tool_call_id(id),
                        kind: None,
                        status: Some(ToolCallStatus::Pending),
                        title: Some(approval_title(meta)),
                        content: Some(
                            seq![
                                ToolCallContentView::Text(
                                    approval_content(
                                        server_name,
                                        elicitation_message(request),
                                        meta,
                                    ),
                                ),
                            ],
                        ),
                        locations: None,
                        raw_input: Some(raw_input),
                        raw_output: None,
                        meta: None,
                    },
                    options: approval_options(session, always),
                    option_map: approval_option_map(session, always),
                },
            )
        },
    }
}

pub fn build_supported_mcp_elicitation_permission_request(
    server_name: &str,
    request_id: &RequestId,
    request: &ElicitationRequest,
    raw_input: Json,
) -> (supported: Option<SupportedMcpElicitationPermissionRequest>)
    ensures
        supported.deep_view() == supported_elicitation(
            server_name@,
            request_id.deep_view(),
            request.deep_view(),
            raw_input.deep_view(),
        ),
{
    broadcast use crate::json::lemma_tree;

    let (meta, message) = match request {
        ElicitationRequest::Form { meta, message } => match meta {
            Some(Json::Object(meta)) => (meta, message),
            _ => return None,
        },
        ElicitationRequest::Url => return None,
    };
    match get_text(meta, MCP_TOOL_APPROVAL_KIND_KEY) {
        Some(kind) => if !same(kind.as_str(), MCP_TOOL_APPROVAL_KIND_MCP_TOOL_CALL) {
            return None;
        },
        None => return None,
    }

    let (session, always) = mcp_tool_approval_persist_modes(meta);
    let mut options: Vec<PermissionOption> = one(
        new_permission_option(
            MCP_TOOL_APPROVAL_ALLOW_OPTION_ID,
            "Allow",
            PermissionOptionKind::AllowOnce,
        ),
    );
    let mut option_map: StringMap<ResolvedMcpElicitation> = StringMap::new();
    option_map.insert(
        MCP_TOOL_APPROVAL_ALLOW_OPTION_ID.to_owned(),
        ResolvedMcpElicitation::accept(),
    );
    if session {
        add_item(
            &mut options,
            new_permission_option(
                MCP_TOOL_APPROVAL_ALLOW_SESSION_OPTION_ID,
                "Allow for this session",
                PermissionOptionKind::AllowAlways,
            ),
        );
        option_map.insert(
            MCP_TOOL_APPROVAL_ALLOW_SESSION_OPTION_ID.to_owned(),
            ResolvedMcpElicitation::accept_with_persist(MCP_TOOL_APPROVAL_PERSIST_SESSION),
        );
    }
    if always {
        add_item(
            &mut options,
            new_permission_option(
                MCP_TOOL_APPROVAL_ALLOW_ALWAYS_OPTION_ID,
                "Allow and don't ask again",
                PermissionOptionKind::AllowAlways,
            ),
        );
        option_map.insert(
            MCP_TOOL_APPROVAL_ALLOW_ALWAYS_OPTION_ID.to_owned(),
            ResolvedMcpElicitation::accept_with_persist(MCP_TOOL_APPROVAL_PERSIST_ALWAYS),
        );
    }
    add_item(
        &mut options,
        new_permission_option(
            MCP_TOOL_APPROVAL_CANCEL_OPTION_ID,
            "Cancel",
            PermissionOptionKind::RejectOnce,
        ),
    );
    option_map.insert(
        MCP_TOOL_APPROVAL_CANCEL_OPTION_ID.to_owned(),
        ResolvedMcpElicitation::cancel(),
    );

    let id = match mcp_tool_approval_call_id(request_id) {
        Some(call_id) => call_id,
        None => {
            let text = request_id_string(request_id);
            concat2("mcp-elicitation:", text.as_str())
        },
    };
    let title = match get_filled(meta, MCP_TOOL_APPROVAL_TOOL_TITLE_KEY) {
        Some(title) => concat2("Approve ", title.as_str()),
        None => "Approve MCP tool call".to_owned(),
    };
    let content = format_mcp_tool_approval_content(server_name, message.as_str(), meta);
    Some(
        SupportedMcpElicitationPermissionRequest {
            request_key: mcp_elicitation_request_key(server_name, request_id),
            tool_call: ToolCallUpdate {
                id,
                kind: None,
                status: Some(ToolCallStatus::Pending),
                title: Some(title),
                content: Some(one(ToolCallContent::Text(content))),
                locations: None,
                raw_input: Some(raw_input),
                raw_output: None,
                meta: None,
            },
            options,
            option_map,
        },
    )
}

proof fn lemma_approval_ids()
    ensures
        MCP_TOOL_APPROVAL_ALLOW_OPTION_ID@ != MCP_TOOL_APPROVAL_ALLOW_SESSION_OPTION_ID@,
        MCP_TOOL_APPROVAL_ALLOW_OPTION_ID@ != MCP_TOOL_APPROVAL_ALLOW_ALWAYS_OPTION_ID@,
        MCP_TOOL_APPROVAL_ALLOW_OPTION_ID@ != MCP_TOOL_APPROVAL_CANCEL_OPTION_ID@,
        MCP_TOOL_APPROVAL_ALLOW_SESSION_OPTION_ID@ != MCP_TOOL_APPROVAL_ALLOW_ALWAYS_OPTION_ID@,
        MCP_TOOL_APPROVAL_ALLOW_SESSION_OPTION_ID@ != MCP_TOOL_APPROVAL_CANCEL_OPTION_ID@,
        MCP_TOOL_APPROVAL_ALLOW_ALWAYS_OPTION_ID@ != MCP_TOOL_APPROVAL_CANCEL_OPTION_ID@,
{
    reveal_strlit("approved");
    reveal_strlit("approved-for-session");
    reveal_strlit("approved-always");
    reveal_strlit("cancel");
    assert("approved"@.len() == 8 && "approved-for-session"@.len() == 20);
    assert("approved-always"@.len() == 15 && "cancel"@.len() == 6);
}

/// What is offered for a tool call is exactly what is understood; what is offered as a refusal
/// cancels the call, and what is offered as an approval accepts it.
pub proof fn approval_options_are_understood(session: bool, always: bool, id: Seq<char>)
    ensures
        approval_option_map(session, always).contains_key(id) <==> exists|i: int|
            0 <= i < approval_options(session, always).len() && (#[trigger] approval_options(
                session,
                always,
            )[i]).option_id == id,
        forall|i: int|
            0 <= i < approval_options(session, always).len() ==> {
                let option = #[trigger] approval_options(session, always)[i];
                let resolved = approval_option_map(session, always)[option.option_id];
                &&& option.kind == PermissionOptionKind::RejectOnce <==> resolved
                    == elicitation_cancelled()
                &&& option.kind != PermissionOptionKind::RejectOnce <==> resolved.action
                    == ElicitationAction::Accept
                &&& option.kind == PermissionOptionKind::AllowOnce <==> resolved == accepted()
            },
{
    lemma_approval_ids();
    let options = approval_options(session, always);
    let option_map = approval_option_map(session, always);
    assert(options[0].option_id == MCP_TOOL_APPROVAL_ALLOW_OPTION_ID@);
    assert(options[options.len() - 1].option_id == MCP_TOOL_APPROVAL_CANCEL_OPTION_ID@);
    if session {
        assert(options[1].option_id == MCP_TOOL_APPROVAL_ALLOW_SESSION_OPTION_ID@);
    }
    if always {
        assert(options[options.len() - 2].option_id == MCP_TOOL_APPROVAL_ALLOW_ALWAYS_OPTION_ID@);
    }
}

/// Only a form that is marked as a tool call approval is put to the client.
pub proof fn only_tool_approvals_are_supported(
    server_name: Seq<char>,
    id: RequestIdView,
    request: ElicitationRequestView,
    raw_input: JsonView,
)
    ensures
        supported_elicitation(server_name, id, request, raw_input) is Some <==> tool_approval_meta(
            request,
        ) is Some,
        supported_elicitation(server_name, id, request, raw_input) is Some ==> request is Form,
        supported_elicitation(server_name, id, request, raw_input) matches Some(supported)
            ==> supported.request_key == elicitation_key(server_name, id)
            && supported.options.len() >= 2,
{
}

} // verus!
