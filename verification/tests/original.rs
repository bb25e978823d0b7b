use codexctl::inputs::build_session_answer;
use codexctl::json::{Json, JsonNumber};
use codexctl::questions::{build_answer, select_recommended};
use codexctl::reports::{compact_thread_read, summarize};
use codexctl::util::extract_proposed_plan;

fn s(text: &str) -> Json {
    Json::Str(text.to_string())
}

fn n(value: u64) -> Json {
    Json::Number(JsonNumber::PosInt(value))
}

fn obj(members: Vec<(&str, Json)>) -> Json {
    Json::Object(members.into_iter().map(|(k, v)| (k.to_string(), v)).collect())
}

fn at<'a>(value: &'a Json, key: &str) -> &'a Json {
    match value {
        Json::Object(members) => members
            .iter()
            .find(|(k, _)| k == key)
            .map(|(_, v)| v)
            .unwrap_or(&Json::Null),
        _ => &Json::Null,
    }
}

fn item<'a>(value: &'a Json, index: usize) -> &'a Json {
    match value {
        Json::Array(items) => items.get(index).unwrap_or(&Json::Null),
        _ => &Json::Null,
    }
}

fn text(value: &Json) -> Option<&str> {
    match value {
        Json::Str(t) => Some(t.as_str()),
        _ => None,
    }
}

fn question_with_recommended() -> Json {
    obj(vec![
        ("id", s("q")),
        (
            "options",
            Json::Array(vec![
                obj(vec![("label", s("A")), ("description", s(""))]),
                obj(vec![("label", s("B (Recommended)")), ("description", s(""))]),
            ]),
        ),
    ])
}

fn user_input_request() -> Json {
    obj(vec![
        ("id", n(0)),
        ("method", s("item/tool/requestUserInput")),
        (
            "params",
            obj(vec![
                ("threadId", s("t")),
                ("turnId", s("u")),
                ("questions", Json::Array(vec![obj(vec![("id", s("q"))])])),
            ]),
        ),
    ])
}

#[test]
fn util_extracts_proposed_plan() {
    let plan = "x<proposed_plan>\n1. A\n2. B\n</proposed_plan>y";
    assert_eq!(extract_proposed_plan(plan).unwrap(), "1. A\n2. B");
}

#[test]
fn main_extracts_proposed_plan() {
    let plan = "x<proposed_plan>\n1. A\n2. B\n</proposed_plan>y";
    assert_eq!(extract_proposed_plan(plan).unwrap(), "1. A\n2. B");
}

#[test]
fn commands_selects_recommended_option() {
    let question = question_with_recommended();
    assert_eq!(select_recommended(&question).unwrap(), "B (Recommended)");
}

#[test]
fn main_selects_recommended_option() {
    let question = question_with_recommended();
    assert_eq!(select_recommended(&question).unwrap(), "B (Recommended)");
}

#[test]
fn commands_builds_answer_payload() {
    let payload = build_answer("scope", &vec!["A".to_string()]).unwrap();
    assert_eq!(text(item(at(at(at(&payload, "answers"), "scope"), "answers"), 0)), Some("A"));
}

#[test]
fn main_builds_answer_payload() {
    let payload = build_answer("scope", &vec!["A".to_string()]).unwrap();
    assert_eq!(text(item(at(at(at(&payload, "answers"), "scope"), "answers"), 0)), Some("A"));
}

#[test]
fn compact_thread_read_collects_user_and_agent_messages() {
    let response = obj(vec![(
        "result",
        obj(vec![(
            "thread",
            obj(vec![
                ("id", s("t1")),
                ("cwd", s("/tmp/project")),
                ("source", s("vscode")),
                ("status", obj(vec![("type", s("notLoaded"))])),
                ("path", s("/tmp/session.jsonl")),
                (
                    "turns",
                    Json::Array(vec![obj(vec![
                        ("id", s("turn1")),
                        (
                            "items",
                            Json::Array(vec![
                                obj(vec![
                                    ("type", s("userMessage")),
                                    (
                                        "content",
                                        Json::Array(vec![obj(vec![
                                            ("type", s("text")),
                                            ("text", s("hello")),
                                        ])]),
                                    ),
                                ]),
                                obj(vec![("type", s("agentMessage")), ("text", s("world"))]),
                            ]),
                        ),
                    ])]),
                ),
            ]),
        )]),
    )]);
    let compact = compact_thread_read(&response);
    assert_eq!(text(at(&compact, "thread_id")), Some("t1"));
    assert!(matches!(at(&compact, "turn_count"), Json::Number(JsonNumber::PosInt(1))));
    assert_eq!(text(at(item(at(&compact, "messages"), 0), "text")), Some("hello"));
    assert_eq!(text(at(item(at(&compact, "messages"), 1), "text")), Some("world"));
}

#[test]
fn logging_summary_detects_user_input_request() {
    let summary = summarize(&user_input_request());
    assert_eq!(text(at(&summary, "kind")), Some("request_user_input"));
    assert!(matches!(at(&summary, "questions"), Json::Number(JsonNumber::PosInt(1))));
}

#[test]
fn main_summary_detects_user_input_request() {
    let summary = summarize(&user_input_request());
    assert_eq!(text(at(&summary, "kind")), Some("request_user_input"));
    assert!(matches!(at(&summary, "questions"), Json::Number(JsonNumber::PosInt(1))));
}

#[test]
fn builds_session_answer_from_pairs() {
    let answer = build_session_answer(
        &vec!["scope=A Small plan (Recommended)".to_string(), "mode=Plan".to_string()],
        None,
    )
    .unwrap();
    assert_eq!(
        text(item(at(at(at(&answer, "answers"), "scope"), "answers"), 0)),
        Some("A Small plan (Recommended)")
    );
    assert_eq!(text(item(at(at(at(&answer, "answers"), "mode"), "answers"), 0)), Some("Plan"));
}

#[test]
fn wraps_raw_session_answer_json() {
    let raw = obj(vec![("scope", obj(vec![("answers", Json::Array(vec![s("A")]))]))]);
    let answer = build_session_answer(&Vec::new(), Some(raw)).unwrap();
    assert_eq!(text(item(at(at(at(&answer, "answers"), "scope"), "answers"), 0)), Some("A"));
}
