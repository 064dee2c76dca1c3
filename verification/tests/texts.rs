//! Texts, paths, documents and titles.
use codex_acp::json::{compact, get_text, parse, pretty, Json};
use codex_acp::paths::{extension, file_name, join_path};
use codex_acp::text::{
    decimal, first_word, join, signed_decimal, split_once, split_words, strip_prefix, take_until,
    trim, truncate_chars,
};
use codex_acp::title::{
    build_session_title_prompt, canonical_title_text, equivalent_title_text, non_empty_str,
    normalize_session_title, prompt_text_from_items, SESSION_TITLE_INSTRUCTIONS,
    SESSION_TITLE_MAX_CHARS,
};
use codex_acp::backend::{Event, ModelsManagerImpl};
use codex_acp::collections::StringSet;
use codex_acp::events::EventMsg;
use codex_acp::models::ModelPreset;
use codex_acp::protocol::{
    ApprovalPolicy, NetworkSandboxPolicy, PermissionProfile, ProfileKind, SessionUpdate, UserInput,
};
use codex_acp::session_config::Config;
use codex_acp::title::ThreadTitleState;
use codex_acp::title_flow::{
    decide_title, hidden_turn_next, publish_session_title, rollback_hidden_title_turn,
    HiddenTitleTurn, HiddenTurnAction, HiddenTurnOutcome, HiddenTurnStep,
    ModelSessionTitleGenerator, TitleDecision, TitleStream, TitleStreamEvent,
};

fn strings(items: &[&str]) -> Vec<String> {
    items.iter().map(|item| item.to_string()).collect()
}

#[test]
fn trimmed_text_is_left_alone() {
    assert_eq!(trim(" \t a b\u{3000}\n"), "a b");
    assert_eq!(trim(trim("  a ")), trim("  a "));
    assert_eq!(trim(" \u{a0}\u{2003} "), "");
}

#[test]
fn shortened_text_fits() {
    assert_eq!(truncate_chars("abcdef", 6), "abcdef");
    assert_eq!(truncate_chars("abcdefg", 6), "abc...");
    assert_eq!(truncate_chars("\u{e9}\u{e9}\u{e9}\u{e9}", 3), "...");
    assert_eq!(truncate_chars("abc", 2), "...");
}

#[test]
fn words_are_split_and_joined_again() {
    assert_eq!(split_words("  a\tb \n c "), strings(&["a", "b", "c"]));
    assert_eq!(split_words("   "), strings(&[]));
    assert_eq!(split_words(&join(&strings(&["a", "b"]), " ")), strings(&["a", "b"]));
    assert_eq!(first_word("ab cd"), "ab");
    assert_eq!(first_word(" ab"), "");
}

#[test]
fn texts_are_parted_at_the_first_mark() {
    assert_eq!(split_once("a:b:c", ':'), Some(("a", "b:c")));
    assert_eq!(split_once("abc", ':'), None);
    assert_eq!(take_until("a:b", ':'), "a");
    assert_eq!(take_until("ab", ':'), "ab");
    assert_eq!(strip_prefix("abc", "ab"), Some("c"));
    assert_eq!(strip_prefix("abc", "b"), None);
    assert_eq!(strip_prefix("a", "ab"), None);
}

#[test]
fn numbers_are_written_in_decimal() {
    assert_eq!(decimal(0), "0");
    assert_eq!(decimal(10), "10");
    assert_eq!(decimal(u64::MAX), "18446744073709551615");
    assert_eq!(signed_decimal(-7), "-7");
    assert_eq!(signed_decimal(i64::MIN), "-9223372036854775808");
    assert_eq!(signed_decimal(i64::MAX), "9223372036854775807");
}

#[test]
fn paths_are_joined_like_unix_paths() {
    assert_eq!(join_path("/a", "b"), "/a/b");
    assert_eq!(join_path("/a/", "b"), "/a/b");
    assert_eq!(join_path("/a", "/b"), "/b");
    assert_eq!(join_path("", "b"), "b");
    assert_eq!(join_path("/a", ""), "/a/");
}

#[test]
fn file_names_end_the_path() {
    assert_eq!(file_name("/a/b.rs"), Some("b.rs"));
    assert_eq!(file_name("/a/b/"), Some("b"));
    assert_eq!(file_name("/a/b/."), Some("b"));
    assert_eq!(file_name("/a/.."), None);
    assert_eq!(file_name("/"), None);
    assert_eq!(file_name(""), None);
}

#[test]
fn extensions_follow_the_last_dot() {
    assert_eq!(extension("/a/b.tar.gz"), Some("gz"));
    assert_eq!(extension("b."), Some(""));
    assert_eq!(extension(".bashrc"), None);
    assert_eq!(extension("Makefile"), None);
    assert_eq!(extension("dir.d/file"), None);
}

#[test]
fn documents_are_read_and_written() {
    let json = parse(" {\"b\": [1, -2.5, null], \"a\": \"x\\ny\"} ").unwrap();
    assert_eq!(compact(&json), "{\"b\":[1,-2.5,null],\"a\":\"x\\ny\"}");
    assert_eq!(
        pretty(&json).unwrap(),
        "{\n  \"b\": [\n    1,\n    -2.5,\n    null\n  ],\n  \"a\": \"x\\ny\"\n}"
    );
    match &json {
        Json::Object(fields) => {
            assert_eq!(get_text(fields, "a").map(String::as_str), Some("x\ny"));
            assert_eq!(get_text(fields, "b"), None);
            assert_eq!(get_text(fields, "c"), None);
        }
        other => panic!("unexpected document: {other:?}"),
    }
    assert_eq!(parse(&compact(&json)), Some(json));
    assert_eq!(parse("{"), None);
    assert_eq!(parse("1 2"), None);
    assert_eq!(parse("true"), Some(Json::Bool(true)));
}

#[test]
fn title_is_the_bare_first_line() {
    let title = |text: &str| normalize_session_title(text, None);
    assert_eq!(title("\n\n  Fix parser.  \nmore").as_deref(), Some("Fix parser"));
    assert_eq!(title("\"Fix parser\"").as_deref(), Some("Fix parser"));
    assert_eq!(title("`Fix parser`...").as_deref(), Some("Fix parser`"));
    assert_eq!(title("...").as_deref(), None);
    assert_eq!(title("   "), None);
}

#[test]
fn long_title_is_shortened() {
    let title = normalize_session_title(&"x".repeat(100), None).unwrap();
    assert_eq!(title.chars().count(), SESSION_TITLE_MAX_CHARS);
    assert!(title.ends_with("xxx..."));
    let title = normalize_session_title(&"x".repeat(60), None).unwrap();
    assert_eq!(title, "x".repeat(60));
}

#[test]
fn title_never_repeats_the_prompt() {
    assert_eq!(normalize_session_title("Fix  the parser.", Some(" Fix the\nparser ")), None);
    assert!(normalize_session_title("Fix the parser", Some("Fix a parser")).is_some());
    assert!(equivalent_title_text(" a  b", "a\tb "));
    assert_eq!(canonical_title_text(" a  b "), "a b");
    assert_eq!(canonical_title_text(&canonical_title_text(" a  b ")), "a b");
}

#[test]
fn title_prompt_holds_request_and_answer() {
    assert_eq!(
        build_session_title_prompt("do it", Some("done")),
        format!(
            "{SESSION_TITLE_INSTRUCTIONS}\n\n<user_request>\ndo it\n</user_request>\n\n\
             <assistant_response>\ndone\n</assistant_response>"
        )
    );
    let short = build_session_title_prompt("", None).chars().count();
    let long = build_session_title_prompt(&"x".repeat(9000), Some(&"y".repeat(9000)));
    assert_eq!(long.chars().count(), short + 8000);
}

#[test]
fn prompt_text_leaves_blanks_out() {
    let items = vec![
        UserInput::Text(" a ".to_string()),
        UserInput::Other(Json::Null),
        UserInput::Text("  ".to_string()),
        UserInput::Text("b".to_string()),
    ];
    assert_eq!(prompt_text_from_items(&items).as_deref(), Some("a\nb"));
    assert_eq!(prompt_text_from_items(&vec![]), None);
    assert_eq!(non_empty_str(" \n"), None);
    assert_eq!(non_empty_str(" a "), Some(" a "));
}

fn stored(name: Option<&str>, first: Option<&str>) -> Option<ThreadTitleState> {
    Some(ThreadTitleState {
        name: name.map(str::to_string),
        first_user_message: first.map(str::to_string),
    })
}

#[test]
fn title_is_decided_from_what_is_known() {
    let prompt = Some("prompt".to_string());
    let shown = Some("shown".to_string());
    assert_eq!(
        decide_title(&shown, &prompt, stored(Some("n"), None), true),
        TitleDecision::Nothing
    );
    assert_eq!(
        decide_title(&None, &prompt, stored(Some("n"), Some("first")), true),
        TitleDecision::Publish("n".to_string())
    );
    assert_eq!(
        decide_title(&None, &prompt, stored(Some("first"), Some("first")), true),
        TitleDecision::Generate { prompt_text: "first".to_string() }
    );
    assert_eq!(
        decide_title(&None, &prompt, None, true),
        TitleDecision::Generate { prompt_text: "prompt".to_string() }
    );
    assert_eq!(decide_title(&None, &prompt, None, false), TitleDecision::Nothing);
    assert_eq!(
        decide_title(&None, &Some("  ".to_string()), None, true),
        TitleDecision::Nothing
    );
    assert_eq!(decide_title(&None, &None, None, true), TitleDecision::Nothing);
}

#[test]
fn title_is_told_once() {
    let mut shown = None;
    let message = publish_session_title(&mut shown, "a".to_string()).unwrap();
    assert_eq!(message.update, SessionUpdate::SessionInfo { title: Some("a".to_string()) });
    assert_eq!(publish_session_title(&mut shown, "a".to_string()), None);
    assert!(publish_session_title(&mut shown, "b".to_string()).is_some());
    assert_eq!(shown.as_deref(), Some("b"));
}

fn event(id: &str, msg: EventMsg) -> Event {
    Event { id: id.to_string(), msg }
}

fn hidden_turn() -> HiddenTitleTurn {
    HiddenTitleTurn {
        submission_id: "h".to_string(),
        prompt_text: "fix it".to_string(),
        title: String::new(),
    }
}

fn complete(message: Option<&str>) -> EventMsg {
    EventMsg::TurnComplete {
        last_agent_message: message.map(str::to_string),
    }
}

#[test]
fn hidden_turn_prefers_what_was_streamed() {
    let mut turn = hidden_turn();
    let delta = |text: &str| EventMsg::AgentMessageContentDelta {
        item_id: "i".to_string(),
        delta: text.to_string(),
    };
    turn.collect_hidden_title_turn(event("other", delta("not ours")));
    turn.collect_hidden_title_turn(event("h", delta("Fix ")));
    turn.collect_hidden_title_turn(event("h", delta("parser")));
    assert_eq!(
        turn.collect_hidden_title_turn(event("h", complete(Some("Another")))),
        HiddenTurnStep::Finished(Some("Fix parser".to_string()))
    );
    let mut turn = hidden_turn();
    assert_eq!(
        turn.collect_hidden_title_turn(event("h", complete(Some("Another")))),
        HiddenTurnStep::Finished(Some("Another".to_string()))
    );
    let mut turn = hidden_turn();
    assert_eq!(
        turn.collect_hidden_title_turn(event("h", complete(Some("fix it")))),
        HiddenTurnStep::Finished(None)
    );
}

#[test]
fn hidden_turn_is_followed_up() {
    let action = |interrupt: bool, roll_back: bool, title: Option<&str>| HiddenTurnAction {
        interrupt,
        roll_back,
        title: title.map(str::to_string),
    };
    assert_eq!(
        hidden_turn_next(HiddenTurnOutcome::Finished(Some("Fix parser".to_string()))),
        action(false, true, Some("Fix parser"))
    );
    assert_eq!(
        hidden_turn_next(HiddenTurnOutcome::Finished(None)),
        action(false, true, None)
    );
    assert_eq!(
        hidden_turn_next(HiddenTurnOutcome::ToolRequested),
        action(true, true, None)
    );
    assert_eq!(
        hidden_turn_next(HiddenTurnOutcome::Failed("m".to_string())),
        action(false, false, None)
    );
    assert_eq!(
        hidden_turn_next(HiddenTurnOutcome::TimedOut),
        action(true, false, None)
    );
}

#[test]
fn hidden_turn_uses_no_tools() {
    let mut turn = hidden_turn();
    assert_eq!(
        turn.collect_hidden_title_turn(event(
            "h",
            EventMsg::McpToolCallBegin {
                call_id: "c".to_string(),
                server: "s".to_string(),
                tool: "t".to_string(),
                raw_invocation: Json::Null,
            }
        )),
        HiddenTurnStep::Interrupt
    );
    assert_eq!(
        turn.collect_hidden_title_turn(event("h", EventMsg::TurnAborted)),
        HiddenTurnStep::Finished(None)
    );
    assert_eq!(
        turn.collect_hidden_title_turn(event(
            "h",
            EventMsg::Error { message: "m".to_string(), codex_error_info: Json::Null }
        )),
        HiddenTurnStep::Failed("hidden title turn failed: m".to_string())
    );
    assert_eq!(
        turn.collect_hidden_title_turn(event(
            "h",
            EventMsg::StreamError { message: "m".to_string() }
        )),
        HiddenTurnStep::Failed("hidden title turn stream failed: m".to_string())
    );
}

#[test]
fn rollback_is_told_by_its_own_events() {
    let rolled_back = |id, msg| rollback_hidden_title_turn("r", &event(id, msg));
    assert_eq!(rolled_back("r", EventMsg::ThreadRolledBack), Some(true));
    assert_eq!(rolled_back("x", EventMsg::ThreadRolledBack), None);
    assert_eq!(
        rolled_back("r", EventMsg::StreamError { message: String::new() }),
        Some(false)
    );
    assert_eq!(rolled_back("r", EventMsg::TurnStarted), None);
}

#[test]
fn streamed_title_is_normalized() {
    let mut stream = TitleStream::new();
    assert!(!stream.take(TitleStreamEvent::TextDelta("\"Fix ".to_string())));
    assert!(!stream.take(TitleStreamEvent::TextDelta("parser\"".to_string())));
    assert!(!stream.take(TitleStreamEvent::MessageDone(strings(&["ignored"]))));
    assert!(!stream.take(TitleStreamEvent::Other));
    assert!(stream.take(TitleStreamEvent::Completed));
    assert_eq!(stream.generate_title("prompt").as_deref(), Some("Fix parser"));
    let mut stream = TitleStream::new();
    stream.take(TitleStreamEvent::MessageDone(strings(&["From ", "parts"])));
    assert_eq!(stream.generate_title("prompt").as_deref(), Some("From parts"));
    assert_eq!(stream.generate_title("From parts"), None);
}

struct OneModel;

impl ModelsManagerImpl for OneModel {
    fn get_model(&self, model_id: &Option<String>) -> String {
        model_id.clone().unwrap_or("fallback".to_string())
    }

    fn list_models(&self) -> Vec<ModelPreset> {
        vec![]
    }
}

#[test]
fn title_is_asked_of_the_configured_model() {
    let config = |model: Option<&str>| Config {
        model: model.map(str::to_string),
        model_provider_id: "p".to_string(),
        model_providers: StringSet::new(),
        model_reasoning_effort: None,
        approval_policy: ApprovalPolicy::Never,
        permission_profile: PermissionProfile {
            identity: String::new(),
            kind: ProfileKind::External,
            network: NetworkSandboxPolicy::Restricted,
            full_disk_read: false,
            full_disk_write: false,
            writes_working_directory: false,
        },
        active_permission_profile: None,
        project_untrusted: false,
        cwd: "/".to_string(),
        legacy_workspace_network: NetworkSandboxPolicy::Restricted,
    };
    let generator = ModelSessionTitleGenerator::new((), OneModel, config(Some("m")));
    let request = generator.title_request("do it", None);
    assert_eq!(request.model, "m");
    assert_eq!(request.prompt, build_session_title_prompt("do it", None));
    let generator = ModelSessionTitleGenerator::new((), OneModel, config(None));
    assert_eq!(generator.title_request("do it", None).model, "fallback");
}
