//! How the tools of a turn are shown: searches, images, calls by name.
use crate::client::{
    new_call, new_status_update, new_tool_call, plain, status_update, tool_call, tool_call_update,
};
use crate::collections::{add_item, empty, one, two};
use crate::events::{
    DynamicToolContent, DynamicToolContentView, McpToolResult, McpToolResultView, WebSearchAction,
    WebSearchActionView,
};
use crate::json::{Json, JsonView, to_value, value_from};
use crate::prompt_state::{Effect, EffectView, PromptState, PromptStateView, notify};
use crate::protocol::{
    SessionUpdateView, ToolCallContent, ToolCallContentView, ToolCallStatus, ToolCallUpdateView,
    ToolCallView, ToolKind,
};
use crate::text::{concat2, concat4, join, joined};
use vstd::prelude::*;

verus! {

/// What was searched for is shown as found.
pub open spec fn web_search_completed(s: PromptStateView) -> (PromptStateView, Seq<EffectView>) {
    match s.active_web_search {
        Some(call_id) => (
            PromptStateView { active_web_search: None, ..s },
            notify(
                plain(
                    SessionUpdateView::ToolCallUpdate(
                        status_update(call_id, Some(ToolCallStatus::Completed)),
                    ),
                ),
            ),
        ),
        None => (s, seq![]),
    }
}

pub open spec fn web_search_started(s: PromptStateView, call_id: Seq<char>) -> (
    PromptStateView,
    Seq<EffectView>,
) {
    (
        PromptStateView { active_web_search: Some(call_id), ..s },
        notify(
            plain(
                SessionUpdateView::ToolCall(
                    new_call(
                        call_id,
                        "Searching the Web"@,
                        ToolKind::Fetch,
                        ToolCallStatus::Pending,
                    ),
                ),
            ),
        ),
    )
}

/// The title of a web search step.
pub open spec fn web_search_title(action: WebSearchActionView) -> Seq<char> {
    match action {
        WebSearchActionView::Search { queries: Some(queries), .. } => "Searching for: "@ + joined(
            queries,
            ", "@,
        ),
        WebSearchActionView::Search { query: Some(query), queries: None } => "Searching for: "@
            + query,
        WebSearchActionView::Search { query: None, queries: None } => "Web search"@,
        WebSearchActionView::OpenPage { url: Some(url) } => "Opening: "@ + url,
        WebSearchActionView::OpenPage { url: None } => "Open page"@,
        WebSearchActionView::FindInPage { pattern: Some(pattern), url: Some(url) } => "Finding: "@
            + pattern + " in "@ + url,
        WebSearchActionView::FindInPage { pattern: Some(pattern), url: None } => "Finding: "@
            + pattern,
        WebSearchActionView::FindInPage { pattern: None, url: Some(url) } => "Find in page: "@
            + url,
        WebSearchActionView::FindInPage { pattern: None, url: None } => "Find in page"@,
        WebSearchActionView::Other => "Web search"@,
    }
}

fn web_search_action_title(action: &WebSearchAction) -> (title: String)
    ensures
        title@ == web_search_title(action.deep_view()),
{
    match action {
        WebSearchAction::Search { query, queries } => match queries {
            Some(queries) => {
                let all = join(queries, ", ");
                concat2("Searching for: ", all.as_str())
            },
            None => match query {
                Some(query) => concat2("Searching for: ", query.as_str()),
                None => "Web search".to_owned(),
            },
        },
        WebSearchAction::OpenPage { url } => match url {
            Some(url) => concat2("Opening: ", url.as_str()),
            None => "Open page".to_owned(),
        },
        WebSearchAction::FindInPage { pattern, url } => match pattern {
            Some(pattern) => match url {
                Some(url) => concat4("Finding: ", pattern.as_str(), " in ", url.as_str()),
                None => concat2("Finding: ", pattern.as_str()),
            },
            None => match url {
                Some(url) => concat2("Find in page: ", url.as_str()),
                None => "Find in page".to_owned(),
            },
        },
        WebSearchAction::Other => "Web search".to_owned(),
    }
}

pub open spec fn web_search_queried(
    call_id: Seq<char>,
    query: Seq<char>,
    action: WebSearchActionView,
    raw_action: JsonView,
) -> Seq<EffectView> {
    notify(
        plain(
            SessionUpdateView::ToolCallUpdate(
                ToolCallUpdateView {
                    title: Some(web_search_title(action)),
                    raw_input: Some(
                        JsonView::Object(
                            seq![("query"@, JsonView::Text(query)), ("action"@, raw_action)],
                        ),
                    ),
                    ..status_update(call_id, Some(ToolCallStatus::InProgress))
                },
            ),
        ),
    )
}

pub open spec fn image_started(s: PromptStateView, call_id: Seq<char>, raw: JsonView) -> (
    PromptStateView,
    Seq<EffectView>,
) {
    (
        PromptStateView {
            active_image_generations: s.active_image_generations.insert(call_id),
            ..s
        },
        notify(
            plain(
                SessionUpdateView::ToolCall(
                    ToolCallView {
                        raw_input: Some(raw),
                        ..new_call(
                            call_id,
                            "Image generation"@,
                            ToolKind::Other,
                            ToolCallStatus::InProgress,
                        )
                    },
                ),
            ),
        ),
    )
}

/// What is shown of a generated image: the prompt as it was revised, and the image.
pub open spec fn image_content(
    revised_prompt: Option<Seq<char>>,
    result: Seq<char>,
    saved_path: Option<Seq<char>>,
) -> Seq<ToolCallContentView> {
    let prompt = match revised_prompt {
        Some(prompt) => seq![ToolCallContentView::Text("Revised prompt: "@ + prompt)],
        None => seq![],
    };
    if result.len() > 0 {
        prompt.push(
            ToolCallContentView::Image {
                data: result,
                mime_type: "image/png"@,
                uri: saved_path,
            },
        )
    } else {
        prompt
    }
}

pub fn image_generation_content(
    revised_prompt: Option<String>,
    result: String,
    saved_path: Option<String>,
) -> (content: Vec<ToolCallContent>)
    ensures
        content.deep_view() == image_content(
            revised_prompt.deep_view(),
            result@,
            saved_path.deep_view(),
        ),
{
    let mut content: Vec<ToolCallContent> = match revised_prompt {
        Some(prompt) => one(ToolCallContent::Text(concat2("Revised prompt: ", prompt.as_str()))),
        None => empty(),
    };
    if !result.as_str().is_empty() {
        add_item(
            &mut content,
            ToolCallContent::Image {
                data: result,
                mime_type: "image/png".to_owned(),
                uri: saved_path,
            },
        );
    }
    content
}

/// The end of an image generation: an update where its beginning was shown, else a whole call.
pub open spec fn image_ended(
    s: PromptStateView,
    call_id: Seq<char>,
    status: ToolCallStatus,
    content: Seq<ToolCallContentView>,
    raw: JsonView,
) -> (PromptStateView, Seq<EffectView>) {
    (
        PromptStateView {
            active_image_generations: s.active_image_generations.remove(call_id),
            ..s
        },
        if s.active_image_generations.contains(call_id) {
            notify(
                plain(
                    SessionUpdateView::ToolCallUpdate(
                        ToolCallUpdateView {
                            content: Some(content),
                            raw_output: Some(raw),
                            ..status_update(call_id, Some(status))
                        },
                    ),
                ),
            )
        } else {
            notify(
                plain(
                    SessionUpdateView::ToolCall(
                        ToolCallView {
                            content,
                            raw_output: Some(raw),
                            ..new_call(call_id, "Image generation"@, ToolKind::Other, status)
                        },
                    ),
                ),
            )
        },
    )
}

impl PromptState {
    pub fn complete_web_search(&mut self) -> (effects: Vec<Effect>)
        ensures
            (final(self).deep_view(), effects.deep_view()) == web_search_completed(
                old(self).deep_view(),
            ),
    {
        match self.active_web_search.take() {
            Some(call_id) => one(
                Effect::Notify(
                    tool_call_update(new_status_update(call_id, Some(ToolCallStatus::Completed))),
                ),
            ),
            None => empty(),
        }
    }

    pub fn start_web_search(&mut self, call_id: String) -> (effects: Vec<Effect>)
        ensures
            (final(self).deep_view(), effects.deep_view()) == web_search_started(
                old(self).deep_view(),
                call_id@,
            ),
    {
        self.active_web_search = Some(call_id.clone());
        one(
            Effect::Notify(
                tool_call(
                    new_tool_call(
                        call_id,
                        "Searching the Web".to_owned(),
                        ToolKind::Fetch,
                        ToolCallStatus::Pending,
                    ),
                ),
            ),
        )
    }

    pub fn start_image_generation(&mut self, call_id: String, raw: Json) -> (effects: Vec<Effect>)
        ensures
            (final(self).deep_view(), effects.deep_view()) == image_started(
                old(self).deep_view(),
                call_id@,
                raw.deep_view(),
            ),
    {
        self.active_image_generations.insert(call_id.clone());
        let mut call = new_tool_call(
            call_id,
            "Image generation".to_owned(),
            ToolKind::Other,
            ToolCallStatus::InProgress,
        );
        call.raw_input = Some(raw);
        one(Effect::Notify(tool_call(call)))
    }

    pub fn end_image_generation(
        &mut self,
        call_id: String,
        status: ToolCallStatus,
        content: Vec<ToolCallContent>,
        raw: Json,
    ) -> (effects: Vec<Effect>)
        ensures
            (final(self).deep_view(), effects.deep_view()) == image_ended(
                old(self).deep_view(),
                call_id@,
                status,
                content.deep_view(),
                raw.deep_view(),
            ),
    {
        if self.active_image_generations.remove(call_id.as_str()) {
            let mut update = new_status_update(call_id, Some(status));
            update.content = Some(content);
            update.raw_output = Some(raw);
            one(Effect::Notify(tool_call_update(update)))
        } else {
            let mut call = new_tool_call(
                call_id,
                "Image generation".to_owned(),
                ToolKind::Other,
                status,
            );
            call.content = content;
            call.raw_output = Some(raw);
            one(Effect::Notify(tool_call(call)))
        }
    }
}

pub fn update_web_search_query(
    call_id: String,
    query: String,
    action: WebSearchAction,
    raw_action: Json,
) -> (effects: Vec<Effect>)
    ensures
        effects.deep_view() == web_search_queried(
            call_id@,
            query@,
            action.deep_view(),
            raw_action.deep_view(),
        ),
{
    broadcast use crate::json::lemma_tree;

    let mut update = new_status_update(call_id, Some(ToolCallStatus::InProgress));
    update.title = Some(web_search_action_title(&action));
    update.raw_input = Some(
        Json::Object(
            two(("query".to_owned(), Json::Text(query)), ("action".to_owned(), raw_action)),
        ),
    );
    one(Effect::Notify(tool_call_update(update)))
}

pub open spec fn dynamic_tool_started(
    call_id: Seq<char>,
    tool: Seq<char>,
    arguments: JsonView,
) -> Seq<EffectView> {
    notify(
        plain(
            SessionUpdateView::ToolCall(
                ToolCallView {
                    raw_input: Some(arguments),
                    ..new_call(
                        call_id,
                        "Tool: "@ + tool,
                        ToolKind::Other,
                        ToolCallStatus::InProgress,
                    )
                },
            ),
        ),
    )
}

pub fn start_dynamic_tool_call(call_id: String, tool: String, arguments: Json) -> (effects: Vec<
    Effect,
>)
    ensures
        effects.deep_view() == dynamic_tool_started(call_id@, tool@, arguments.deep_view()),
{
    let mut call = new_tool_call(
        call_id,
        concat2("Tool: ", tool.as_str()),
        ToolKind::Other,
        ToolCallStatus::InProgress,
    );
    call.raw_input = Some(arguments);
    one(Effect::Notify(tool_call(call)))
}

pub open spec fn mcp_tool_started(
    call_id: Seq<char>,
    server: Seq<char>,
    tool: Seq<char>,
    raw_invocation: JsonView,
) -> Seq<EffectView> {
    notify(
        plain(
            SessionUpdateView::ToolCall(
                ToolCallView {
                    raw_input: Some(raw_invocation),
                    ..new_call(
                        call_id,
                        "Tool: "@ + server + "/"@ + tool,
                        ToolKind::Other,
                        ToolCallStatus::InProgress,
                    )
                },
            ),
        ),
    )
}

pub fn start_mcp_tool_call(
    call_id: String,
    server: String,
    tool: String,
    raw_invocation: Json,
) -> (effects: Vec<Effect>)
    ensures
        effects.deep_view() == mcp_tool_started(
            call_id@,
            server@,
            tool@,
            raw_invocation.deep_view(),
        ),
{
    let mut call = new_tool_call(
        call_id,
        concat4("Tool: ", server.as_str(), "/", tool.as_str()),
        ToolKind::Other,
        ToolCallStatus::InProgress,
    );
    call.raw_input = Some(raw_invocation);
    one(Effect::Notify(tool_call(call)))
}

pub open spec fn dynamic_content(item: DynamicToolContentView) -> ToolCallContentView {
    match item {
        DynamicToolContentView::Text(text) => ToolCallContentView::Text(text),
        DynamicToolContentView::Image(url) => ToolCallContentView::ResourceLink {
            name: url,
            uri: url,
        },
    }
}

pub open spec fn dynamic_contents(items: Seq<DynamicToolContentView>) -> Seq<ToolCallContentView> {
    items.map_values(|item: DynamicToolContentView| dynamic_content(item))
}

pub open spec fn status_of(success: bool) -> ToolCallStatus {
    if success {
        ToolCallStatus::Completed
    } else {
        ToolCallStatus::Failed
    }
}

pub open spec fn dynamic_tool_ended(
    call_id: Seq<char>,
    success: bool,
    items: Seq<DynamicToolContentView>,
    error: Option<Seq<char>>,
    raw: JsonView,
) -> Seq<EffectView> {
    let content = match error {
        Some(error) => dynamic_contents(items).push(ToolCallContentView::Text(error)),
        None => dynamic_contents(items),
    };
    notify(
        plain(
            SessionUpdateView::ToolCallUpdate(
                ToolCallUpdateView {
                    content: Some(content),
                    raw_output: Some(raw),
                    ..status_update(call_id, Some(status_of(success)))
                },
            ),
        ),
    )
}

pub fn end_dynamic_tool_call(
    call_id: String,
    success: bool,
    content_items: Vec<DynamicToolContent>,
    error: Option<String>,
    raw: Json,
) -> (effects: Vec<Effect>)
    ensures
        effects.deep_view() == dynamic_tool_ended(
            call_id@,
            success,
            content_items.deep_view(),
            error.deep_view(),
            raw.deep_view(),
        ),
{
    let mut content: Vec<ToolCallContent> = empty();
    let ghost all = content_items.deep_view();
    for i in 0..content_items.len()
        invariant
            all == content_items.deep_view(),
            content.deep_view() == dynamic_contents(all.take(i as int)),
    {
        assert(dynamic_contents(all.take(i + 1)) =~= dynamic_contents(all.take(i as int)).push(
            dynamic_content(all[i as int]),
        ));
        let item = match &content_items[i] {
            DynamicToolContent::Text(text) => ToolCallContent::Text(text.clone()),
            DynamicToolContent::Image(url) => ToolCallContent::ResourceLink {
                name: url.clone(),
                uri: url.clone(),
            },
        };
        add_item(&mut content, item);
    }
    assert(all.take(all.len() as int) =~= all);
    if let Some(error) = error {
        add_item(&mut content, ToolCallContent::Text(error));
    }
    let status = if success {
        ToolCallStatus::Completed
    } else {
        ToolCallStatus::Failed
    };
    let mut update = new_status_update(call_id, Some(status));
    update.content = Some(content);
    update.raw_output = Some(raw);
    one(Effect::Notify(tool_call_update(update)))
}

/// Whether a value can be read as a content block of the protocol.
pub uninterp spec fn readable_block(value: serde_json::Value) -> bool;

/// `serde_json::from_value` for `agent_client_protocol`'s `ContentBlock`: whether the value can be
/// read as one. The answer is named, and depends on the value alone.
#[verifier::external_body]
fn is_content_block(value: serde_json::Value) -> (found: bool)
    ensures
        found == readable_block(value),
{
    serde_json::from_value::<agent_client_protocol::schema::v1::ContentBlock>(value).is_ok()
}

/// Whether an item of a tool's content is a content block, which the client can show.
pub open spec fn is_block(item: JsonView) -> bool {
    readable_block(value_from(item))
}

/// What is shown of a tool's content: its content blocks, in their order.
pub open spec fn shown_blocks(content: Seq<JsonView>) -> Seq<ToolCallContentView> {
    content.filter(|item: JsonView| is_block(item)).map_values(
        |block: JsonView| ToolCallContentView::Block(block),
    )
}

/// The items of a tool's content, each kept where it is a content block.
pub open spec fn blocks_read(content: Seq<JsonView>) -> Seq<Option<JsonView>> {
    content.map_values(
        |item: JsonView|
            if is_block(item) {
                Some(item)
            } else {
                None
            },
    )
}

/// The blocks that were kept, in their order.
pub open spec fn kept_blocks(content: Seq<Option<JsonView>>) -> Seq<ToolCallContentView>
    decreases content.len(),
{
    if content.len() == 0 {
        seq![]
    } else {
        match content.last() {
            Some(block) => kept_blocks(content.drop_last()).push(ToolCallContentView::Block(block)),
            None => kept_blocks(content.drop_last()),
        }
    }
}

proof fn lemma_kept_are_shown(content: Seq<JsonView>)
    ensures
        kept_blocks(blocks_read(content)) == shown_blocks(content),
    decreases content.len(),
{
    let chosen = |item: JsonView| is_block(item);
    reveal(Seq::filter);
    if content.len() > 0 {
        let before = content.drop_last();
        lemma_kept_are_shown(before);
        assert(blocks_read(content).drop_last() =~= blocks_read(before));
        let shown = shown_blocks(before);
        if is_block(content.last()) {
            assert(content.filter(chosen) == before.filter(chosen).push(content.last()));
            assert(shown_blocks(content) =~= shown.push(
                ToolCallContentView::Block(content.last()),
            ));
        } else {
            assert(content.filter(chosen) == before.filter(chosen));
        }
    } else {
        assert(shown_blocks(content) =~= kept_blocks(blocks_read(content)));
    }
}

/// What a tool returned is told. `blocks` is what is shown of its content, if it has any.
pub open spec fn returned_told(
    call_id: Seq<char>,
    is_error: Option<bool>,
    blocks: Option<Seq<ToolCallContentView>>,
    raw: JsonView,
) -> Seq<EffectView> {
    notify(
        plain(
            SessionUpdateView::ToolCallUpdate(
                ToolCallUpdateView {
                    content: blocks,
                    raw_output: Some(raw),
                    ..status_update(call_id, Some(status_of(is_error != Some(true))))
                },
            ),
        ),
    )
}

/// The end of an MCP tool call. Content that is no content block is left out.
pub open spec fn mcp_tool_ended(call_id: Seq<char>, result: McpToolResultView) -> Seq<EffectView> {
    match result {
        McpToolResultView::Returned { is_error, content, raw } => returned_told(
            call_id,
            is_error,
            if content.len() > 0 {
                Some(shown_blocks(content))
            } else {
                None
            },
            raw,
        ),
        McpToolResultView::Failed { message } => notify(
            plain(
                SessionUpdateView::ToolCallUpdate(
                    ToolCallUpdateView {
                        raw_output: Some(JsonView::Text(message)),
                        ..status_update(call_id, Some(ToolCallStatus::Failed))
                    },
                ),
            ),
        ),
    }
}

fn read_blocks(content: Vec<Json>) -> (blocks: Vec<Option<Json>>)
    ensures
        blocks.deep_view() == blocks_read(content.deep_view()),
{
    let mut content = content;
    let mut blocks: Vec<Option<Json>> = empty();
    let ghost all = content.deep_view();
    let n: usize = content.len();
    let mut done: usize = 0;
    assert(all.skip(0) =~= all);
    while done < n
        invariant
            n == all.len(),
            done <= n,
            content.deep_view() == all.skip(done as int),
            content@.len() == n - done,
            blocks.deep_view() == blocks_read(all.take(done as int)),
        decreases n - done,
    {
        let ghost rest = content.deep_view();
        let item = content.remove(0);
        proof {
            assert(content.deep_view() =~= rest.drop_first());
            assert(all.skip(done as int).drop_first() =~= all.skip(done + 1));
            assert(item.deep_view() == rest[0]);
        }
        let ghost kept = if is_block(item.deep_view()) {
            Some(item.deep_view())
        } else {
            None
        };
        assert(blocks_read(all.take(done + 1)) =~= blocks_read(all.take(done as int)).push(kept));
        add_item(
            &mut blocks,
            if is_content_block(to_value(&item)) {
                Some(item)
            } else {
                None
            },
        );
        done += 1;
    }
    assert(all.take(n as int) =~= all);
    blocks
}

fn take_blocks(content: Vec<Option<Json>>) -> (blocks: Vec<ToolCallContent>)
    ensures
        blocks.deep_view() == kept_blocks(content.deep_view()),
{
    let mut content = content;
    let mut blocks: Vec<ToolCallContent> = empty();
    let ghost all = content.deep_view();
    let n: usize = content.len();
    let mut done: usize = 0;
    assert(all.skip(0) =~= all);
    while done < n
        invariant
            n == all.len(),
            done <= n,
            content.deep_view() == all.skip(done as int),
            content@.len() == n - done,
            blocks.deep_view() == kept_blocks(all.take(done as int)),
        decreases n - done,
    {
        let ghost rest = content.deep_view();
        let block = content.remove(0);
        proof {
            assert(content.deep_view() =~= rest.drop_first());
            assert(all.skip(done as int).drop_first() =~= all.skip(done + 1));
            assert(all.take(done + 1).drop_last() =~= all.take(done as int));
            assert(block.deep_view() == rest[0]);
        }
        if let Some(block) = block {
            add_item(&mut blocks, ToolCallContent::Block(block));
        }
        done += 1;
    }
    assert(all.take(n as int) =~= all);
    blocks
}

/// Tells what an MCP tool returned. `content` holds the content blocks among the items of its
/// content, and nothing in place of the others.
pub fn tell_mcp_tool_result(
    call_id: String,
    is_error: Option<bool>,
    content: Vec<Option<Json>>,
    raw: Json,
) -> (effects: Vec<Effect>)
    ensures
        effects.deep_view() == returned_told(
            call_id@,
            is_error,
            if content@.len() > 0 {
                Some(kept_blocks(content.deep_view()))
            } else {
                None
            },
            raw.deep_view(),
        ),
{
    let failed = match is_error {
        Some(value) => value,
        None => false,
    };
    let status = if failed {
        ToolCallStatus::Failed
    } else {
        ToolCallStatus::Completed
    };
    let mut update = new_status_update(call_id, Some(status));
    if content.len() > 0 {
        update.content = Some(take_blocks(content));
    }
    update.raw_output = Some(raw);
    one(Effect::Notify(tool_call_update(update)))
}

pub fn end_mcp_tool_call(call_id: String, result: McpToolResult) -> (effects: Vec<Effect>)
    ensures
        effects.deep_view() == mcp_tool_ended(call_id@, result.deep_view()),
{
    match result {
        McpToolResult::Returned { is_error, content, raw } => {
            proof {
                lemma_kept_are_shown(content.deep_view());
            }
            let blocks = read_blocks(content);
            tell_mcp_tool_result(call_id, is_error, blocks, raw)
        },
        McpToolResult::Failed { message } => {
            let mut update = new_status_update(call_id, Some(ToolCallStatus::Failed));
            update.raw_output = Some(Json::Text(message));
            one(Effect::Notify(tool_call_update(update)))
        },
    }
}

} // verus!
