use codexctl::settings::{LimitError, parse_limit};
use codexctl::daemon::{START_ATTEMPTS, StartWait, start_wait_begin, start_wait_step};
use codexctl::argv::CliErrorKind;
use codexctl::cli::{Cli, Commands};
use codexctl::daemon::{
    DaemonRequest, classify_request, daemon_spawn_command, run_stop_report, session_goal_params,
    start_settings, unknown_request_report,
};
use codexctl::inputs::{
    InputError, Source, build_session_answer, params_source, prompt_source, session_answer_source,
    text_less_exec,
};
use codexctl::json::{Json, JsonNumber};
use codexctl::requests::ProtocolError;
use codexctl::paths::{
    default_log_dir, default_viewer_dir, join_path, new_run_id, run_log_file_name,
    socket_file_name, viewer_file_name,
};
use codexctl::plan::{PlanRun, PlanStep};
use codexctl::questions::{
    QuestionAnswer, QuestionError, answer_questions, build_answer, external_answer,
    interactive_lines, interactive_selection, options, selections_payload,
};
use codexctl::settings::QuestionMode;
use codexctl::reports::{
    doctor_report, event_line, log_entry, model_entry, summarize, thread_read_params,
};
use codexctl::runs::RunTable;
use codexctl::session::{Pump, RunState, SessionError};
use codexctl::settings::{
    ApprovalPolicy, LogMode, NonZeroCount, RunTimeout, RuntimeArgs, SandboxMode, TokenBudget, log_mode_name,
    parse_log_mode,
};
use codexctl::turn::RunStatus;
use codexctl::viewer::{
    ViewError, derive_codex_home_from_rollout_path, inject_boot, js_string, thread_path_for_run,
};

fn js(text: &str) -> Json {
    Json::Str(text.to_string())
}

fn num(value: u64) -> Json {
    Json::Number(JsonNumber::PosInt(value))
}

fn object(members: Vec<(&str, Json)>) -> Json {
    Json::Object(members.into_iter().map(|(k, v)| (k.to_string(), v)).collect())
}

fn member<'a>(value: &'a Json, key: &str) -> &'a Json {
    match value {
        Json::Object(members) => members
            .iter()
            .find(|(k, _)| k == key)
            .map(|(_, v)| v)
            .unwrap_or(&Json::Null),
        _ => &Json::Null,
    }
}

fn keys(value: &Json) -> Vec<String> {
    match value {
        Json::Object(members) => members.iter().map(|(k, _)| k.clone()).collect(),
        _ => Vec::new(),
    }
}

fn strings(value: &Json) -> Vec<String> {
    match value {
        Json::Array(items) => items
            .iter()
            .map(|i| match i {
                Json::Str(t) => t.clone(),
                _ => String::new(),
            })
            .collect(),
        _ => Vec::new(),
    }
}

fn as_text(value: &Json) -> Option<String> {
    match value {
        Json::Str(t) => Some(t.clone()),
        _ => None,
    }
}

fn same(a: &Json, b: &Json) -> bool {
    match (a, b) {
        (Json::Null, Json::Null) => true,
        (Json::Bool(x), Json::Bool(y)) => x == y,
        (Json::Number(JsonNumber::PosInt(x)), Json::Number(JsonNumber::PosInt(y))) => x == y,
        (Json::Number(JsonNumber::NegInt(x)), Json::Number(JsonNumber::NegInt(y))) => x == y,
        (Json::Number(JsonNumber::Float(x)), Json::Number(JsonNumber::Float(y))) => x == y,
        (Json::Str(x), Json::Str(y)) => x == y,
        (Json::Array(x), Json::Array(y)) => {
            x.len() == y.len() && x.iter().zip(y.iter()).all(|(p, q)| same(p, q))
        }
        (Json::Object(x), Json::Object(y)) => {
            x.len() == y.len()
                && x.iter().zip(y.iter()).all(|(p, q)| p.0 == q.0 && same(&p.1, &q.1))
        }
        _ => false,
    }
}

fn pairs(items: &[&str]) -> Vec<String> {
    items.iter().map(|s| s.to_string()).collect()
}

fn run_state(run_id: &str) -> RunState {
    RunState::new(
        run_id.to_string(),
        "thread-1".to_string(),
        "gpt-5.5".to_string(),
        "never".to_string(),
        None,
        None,
        None,
        None,
    )
}

fn input_request(id: u64) -> Json {
    object(vec![
        ("id", num(id)),
        ("method", js("item/tool/requestUserInput")),
        ("params", object(vec![("questions", Json::Array(vec![object(vec![("id", js("q"))])]))])),
    ])
}

// ---------------------------------------------------------------- session answers

#[test]
fn groups_answers_by_question_in_key_order() {
    let answer = build_session_answer(&pairs(&["b=1", " a = 2 ", "b=3"]), None).unwrap();
    let inner = member(&answer, "answers");
    assert_eq!(keys(inner), vec!["a".to_string(), "b".to_string()]);
    assert_eq!(strings(member(member(inner, "b"), "answers")), vec!["1", "3"]);
    assert_eq!(strings(member(member(inner, "a"), "answers")), vec!["2"]);
}

#[test]
fn answer_splits_at_first_equals_sign() {
    let answer = build_session_answer(&pairs(&["q=a=b"]), None).unwrap();
    assert_eq!(strings(member(member(member(&answer, "answers"), "q"), "answers")), vec!["a=b"]);
}

#[test]
fn refuses_first_bad_answer_pair() {
    match build_session_answer(&pairs(&["ok=1", "novalue", "=x"]), None) {
        Err(InputError::BadAnswer(p)) => assert_eq!(p, "novalue"),
        other => panic!("unexpected {other:?}"),
    }
    match build_session_answer(&pairs(&["q=  "]), None) {
        Err(InputError::BadAnswer(p)) => assert_eq!(p, "q=  "),
        other => panic!("unexpected {other:?}"),
    }
}

#[test]
fn session_answer_needs_some_answer() {
    assert!(matches!(build_session_answer(&Vec::new(), None), Err(InputError::NoAnswers)));
}

#[test]
fn session_answer_refuses_mixed_sources() {
    let raw = object(vec![("answers", object(vec![]))]);
    assert!(matches!(
        build_session_answer(&pairs(&["a=b"]), Some(raw)),
        Err(InputError::MixedAnswerSources)
    ));
    assert!(matches!(
        session_answer_source(&pairs(&["a=b"]), Some("{}".to_string()), None),
        Err(InputError::MixedAnswerSources)
    ));
    assert!(matches!(
        session_answer_source(&Vec::new(), Some("{}".to_string()), Some("f".to_string())),
        Err(InputError::BothParamsSources)
    ));
    assert!(matches!(session_answer_source(&pairs(&["a=b"]), None, None), Ok(None)));
    assert!(matches!(
        session_answer_source(&Vec::new(), None, Some("f.json".to_string())),
        Ok(Some(Source::File(ref f))) if f == "f.json"
    ));
}

#[test]
fn raw_answers_with_answers_member_are_sent_as_given() {
    let raw = object(vec![("answers", object(vec![("q", object(vec![]))]))]);
    let answer = build_session_answer(&Vec::new(), Some(raw)).unwrap();
    assert_eq!(keys(&answer), vec!["answers".to_string()]);
    assert_eq!(keys(member(&answer, "answers")), vec!["q".to_string()]);
}

#[test]
fn single_question_pairs_match_answer_payload() {
    let from_pairs = build_session_answer(&pairs(&["scope=A", "scope=B"]), None).unwrap();
    let from_answer = build_answer("scope", &pairs(&["A", "B"])).unwrap();
    assert!(same(&from_pairs, &from_answer));
}

#[test]
fn strings_order_by_code_point() {
    let a: Vec<char> = "ab".chars().collect();
    let b: Vec<char> = "abc".chars().collect();
    let c: Vec<char> = "b".chars().collect();
    assert!(text_less_exec(&a, &b));
    assert!(!text_less_exec(&b, &a));
    assert!(text_less_exec(&b, &c));
    assert!(!text_less_exec(&a, &a));
}

#[test]
fn prompt_and_params_sources() {
    assert!(matches!(prompt_source(Some("p".into()), Some("f".into())), Err(InputError::BothPromptSources)));
    assert!(matches!(prompt_source(None, None), Err(InputError::NoPrompt)));
    assert!(matches!(prompt_source(Some("p".into()), None), Ok(Source::Text(ref t)) if t == "p"));
    assert!(matches!(params_source(None, None), Ok(Source::Text(ref t)) if t == "{}"));
    assert!(matches!(params_source(Some("1".into()), Some("f".into())), Err(InputError::BothParamsSources)));
}

// ---------------------------------------------------------------- limits and names

#[test]
fn limits_read_back_from_their_text() {
    let budget = TokenBudget::from_limit(Some(6000));
    assert_eq!(TokenBudget::parse(&budget.to_text()).unwrap(), budget);
    assert_eq!(TokenBudget::parse(&TokenBudget::Unlimited.to_text()).unwrap(), TokenBudget::Unlimited);
    let timeout = RunTimeout::from_limit(Some(120));
    assert_eq!(RunTimeout::parse(&timeout.to_text()).unwrap(), timeout);
    assert_eq!(timeout.duration(), Some(std::time::Duration::from_secs(120)));
    assert_eq!(NonZeroCount::new(0), None);
    assert_eq!(NonZeroCount::new(7).map(|c| c.get()), Some(7));
}

#[test]
fn log_modes_read_back_from_their_names() {
    for mode in [LogMode::Off, LogMode::Summary, LogMode::Full] {
        assert_eq!(parse_log_mode(log_mode_name(mode)), Some(mode));
    }
    assert_eq!(parse_log_mode("loud"), None);
}

#[test]
fn full_auto_forces_full_access() {
    let args = RuntimeArgs {
        cwd: None,
        sandbox: SandboxMode::ReadOnly,
        approval_policy: ApprovalPolicy::OnRequest,
        full_auto: true,
    };
    let runtime = args.effective("/work".to_string());
    assert_eq!(runtime.cwd, "/work");
    assert_eq!(runtime.sandbox, "danger-full-access");
    assert_eq!(runtime.approval_policy, "never");
}

#[test]
fn paths_and_names() {
    assert_eq!(join_path("a", "b"), "a/b");
    assert_eq!(join_path("a/", "b"), "a/b");
    assert_eq!(join_path("", "b"), "b");
    assert_eq!(join_path("a", "/b"), "/b");
    assert_eq!(default_log_dir(None), "./.codex-app-cli/logs");
    assert_eq!(default_log_dir(Some("/home/u")), "/home/u/.codex-app-cli/logs");
    assert_eq!(default_viewer_dir(None, "/tmp"), "/tmp/.codexctl/viewer");
    assert_eq!(run_log_file_name(42), "run-42.jsonl");
    assert_eq!(new_run_id(1700, 7), "run-1700-7");
    assert_eq!(viewer_file_name(5, 9), "view-5-9.html");
    assert_eq!(socket_file_name(None), "codex-app-default.sock");
    assert_eq!(socket_file_name(Some("ann")), "codex-app-ann.sock");
}

// ---------------------------------------------------------------- daemon runs

#[test]
fn input_request_pauses_until_answered_once() {
    let mut state = run_state("run-1");
    state.begin_pump(1);
    let step = state.on_message(1, &input_request(7));
    assert_eq!(step, Pump::Pause);
    assert_eq!(state.status, RunStatus::NeedsInput);
    assert_eq!(state.questions.len(), 1);
    assert!(matches!(state.begin_send(&object(vec![("prompt", js("x"))])), Err(SessionError::PendingQuestion)));
    let answer = object(vec![("answers", object(vec![]))]);
    let request = object(vec![("answer", answer)]);
    let (id, _sent) = state.begin_answer(&request).unwrap();
    assert!(matches!(id, Json::Number(JsonNumber::PosInt(7))));
    assert_eq!(state.status, RunStatus::NeedsInput);
    assert_eq!(state.answer_sent(), 1);
    assert_eq!(state.status, RunStatus::Running);
    assert!(state.pending_request_id.is_none());
    assert_eq!(state.answers.len(), 1);
    assert!(matches!(state.begin_answer(&request), Err(SessionError::NoPendingQuestion)));
}

#[test]
fn turn_completed_and_errors_pause_the_run() {
    let mut state = run_state("run-1");
    assert_eq!(state.on_message(1, &object(vec![("id", num(1)), ("result", object(vec![("turn", object(vec![("id", js("turn-9"))]))]))])), Pump::Continue);
    assert_eq!(state.turn_id.as_deref(), Some("turn-9"));
    assert_eq!(state.on_message(1, &object(vec![("method", js("warning"))])), Pump::Continue);
    assert_eq!(state.warnings.len(), 1);
    assert_eq!(state.on_message(1, &object(vec![("method", js("turn/completed")), ("params", object(vec![]))])), Pump::Pause);
    assert_eq!(state.status, RunStatus::Completed);
    let snapshot = state.snapshot();
    assert!(matches!(member(&snapshot, "ok"), Json::Bool(true)));
    assert_eq!(as_text(member(&snapshot, "status")).as_deref(), Some("completed"));

    let mut failed = run_state("run-2");
    assert_eq!(failed.on_message(1, &object(vec![("id", num(1)), ("error", js("boom"))])), Pump::Pause);
    assert_eq!(failed.status, RunStatus::Failed);
    assert!(matches!(member(&failed.snapshot(), "ok"), Json::Bool(false)));
}

#[test]
fn send_resets_the_turn_and_switches_model() {
    let mut state = run_state("run-1");
    state.on_message(1, &object(vec![("method", js("warning"))]));
    let request = object(vec![("prompt", js("next")), ("model", js("gpt-x")), ("effort", js("high"))]);
    let params = state.begin_send(&request).unwrap();
    assert_eq!(state.thread_model, "gpt-x");
    assert!(state.warnings.is_empty());
    assert_eq!(as_text(member(&params, "threadId")).as_deref(), Some("thread-1"));
    assert!(matches!(
        state.begin_send(&object(vec![("effort", js("high"))])),
        Err(SessionError::MissingField(ref k)) if k == "prompt"
    ));
}

#[test]
fn run_table_reads_back_what_it_keeps() {
    let mut table: RunTable<u32> = RunTable::new();
    table.insert(1, run_state("run-a"));
    table.insert(2, run_state("run-b"));
    assert_eq!(table.len(), 2);
    assert_eq!(table.get("run-a").unwrap().run_id, "run-a");
    table.insert(3, run_state("run-a"));
    assert_eq!(table.len(), 2);
    let entry = table.take("run-a").unwrap();
    assert_eq!(entry.server, 3);
    assert!(matches!(table.get("run-a"), Err(SessionError::UnknownRun(ref k)) if k == "run-a"));
    assert!(table.remove("run-b"));
    assert!(!table.remove("run-b"));
    assert!(table.run_ids().is_empty());
}

#[test]
fn daemon_requests_and_answers() {
    assert_eq!(classify_request(&object(vec![("type", js("session_read"))])), DaemonRequest::Read);
    assert_eq!(classify_request(&object(vec![("type", num(3))])), DaemonRequest::Unknown);
    let unknown = unknown_request_report(&object(vec![("type", js("x\"y"))]));
    assert_eq!(
        as_text(member(&unknown, "error")).as_deref(),
        Some("unknown daemon request type: Some(\"x\\\"y\")")
    );
    let none = unknown_request_report(&object(vec![]));
    assert_eq!(as_text(member(&none, "error")).as_deref(), Some("unknown daemon request type: None"));
    let stopped = run_stop_report(false, "run-9");
    assert_eq!(as_text(member(&stopped, "status")).as_deref(), Some("not_found"));
    assert_eq!(
        daemon_spawn_command("/usr/bin/codexctl", "/tmp/a b.sock"),
        "nohup /usr/bin/codexctl --session-socket '/tmp/a b.sock' daemon serve >/dev/null 2>&1 &"
    );
}

#[test]
fn start_requests_are_read_field_by_field() {
    let config = object(vec![("codexBin", js("codex")), ("logMode", js("summary"))]);
    let runtime = object(vec![("cwd", js("/w")), ("sandbox", js("read-only")), ("approvalPolicy", js("never"))]);
    let ok = object(vec![
        ("config", config),
        ("runtime", runtime),
        ("prompt", js("hi")),
        ("timeoutSecs", num(30)),
    ]);
    let settings = start_settings(&ok).unwrap();
    assert_eq!(settings.codex_bin, "codex");
    assert_eq!(settings.log_mode, LogMode::Summary);
    assert_eq!(settings.timeout, Some(30));
    assert!(settings.model.is_none());
    let loud = object(vec![("config", object(vec![("codexBin", js("codex")), ("logMode", js("loud"))]))]);
    assert!(matches!(start_settings(&loud), Err(SessionError::UnknownLogMode(ref m)) if m == "loud"));
    assert!(matches!(start_settings(&object(vec![])), Err(SessionError::MissingField(ref k)) if k == "codexBin"));
    let goal = session_goal_params("t1", &object(vec![("objective", js("ship")), ("tokenBudget", num(500))])).unwrap();
    assert_eq!(keys(&goal), vec!["threadId", "objective", "status", "tokenBudget"]);
    assert_eq!(as_text(member(&goal, "status")).as_deref(), Some("active"));
    assert!(session_goal_params("t1", &object(vec![])).is_none());
}

// ---------------------------------------------------------------- reports and the viewer

#[test]
fn log_entries_by_mode() {
    let message = object(vec![("id", num(2)), ("result", object(vec![("b", num(1)), ("a", num(2))]))]);
    assert!(log_entry(LogMode::Off, 1, "in", &message).is_none());
    let full = log_entry(LogMode::Full, 5, "in", &message).unwrap();
    assert!(same(member(&full, "message"), &message));
    let summary = log_entry(LogMode::Summary, 5, "out", &message).unwrap();
    let s = member(&summary, "summary");
    assert_eq!(as_text(member(s, "kind")).as_deref(), Some("response"));
    assert_eq!(strings(member(s, "result_keys")), vec!["b", "a"]);
    let error = summarize(&object(vec![("id", num(3)), ("error", js("bad"))]));
    assert_eq!(as_text(member(&error, "kind")).as_deref(), Some("error"));
    let other = object(vec![("x", num(1))]);
    assert!(same(&summarize(&other), &other));
}

#[test]
fn model_entries_fill_defaults() {
    let entry = model_entry(&object(vec![("id", js("m1")), ("displayName", js("M"))]));
    assert_eq!(as_text(member(&entry, "display_name")).as_deref(), Some("M"));
    assert!(matches!(member(&entry, "is_default"), Json::Bool(false)));
    assert!(matches!(member(&entry, "input_modalities"), Json::Array(v) if v.is_empty()));
}

#[test]
fn doctor_reports_trimmed_output() {
    let modes = object(vec![("result", object(vec![("data", Json::Array(vec![]))]))]);
    let report = doctor_report(true, Some(-1), " codex 1.0\n", "", modes, &None, &None, &None);
    assert!(matches!(member(&report, "ok"), Json::Bool(true)));
    let codex = member(&report, "codex");
    assert_eq!(as_text(member(codex, "stdout")).as_deref(), Some("codex 1.0"));
    assert!(matches!(member(codex, "status"), Json::Number(JsonNumber::NegInt(-1))));
    assert_eq!(keys(member(member(&report, "app_server"), "modes")), vec!["data"]);
}

#[test]
fn viewer_text_is_script_safe() {
    assert_eq!(js_string("a</script><!--\"").unwrap(), "\"a<\\/script><\\!--\\\"\"");
    assert_eq!(inject_boot("<html></body></html>", "B"), "<html>B</body></html>");
    assert_eq!(inject_boot("<p>", "B"), "<p>\nB");
    assert_eq!(
        derive_codex_home_from_rollout_path("/home/u/.codex/sessions/2025/x.jsonl").as_deref(),
        Some("/home/u/.codex")
    );
    assert!(derive_codex_home_from_rollout_path("/tmp/x.jsonl").is_none());
}

#[test]
fn viewer_finds_the_thread_of_a_run() {
    let response = object(vec![(
        "runs",
        Json::Array(vec![
            object(vec![("run_id", js("run-1"))]),
            object(vec![("run_id", js("run-2")), ("thread_path", js("/t.jsonl"))]),
        ]),
    )]);
    assert_eq!(thread_path_for_run(&response, "run-2").unwrap(), "/t.jsonl");
    assert!(matches!(thread_path_for_run(&response, "run-1"), Err(ViewError::NoThreadPath(_))));
    assert!(matches!(thread_path_for_run(&response, "run-3"), Err(ViewError::UnknownRun(_))));
    assert!(matches!(thread_path_for_run(&object(vec![]), "run-1"), Err(ViewError::NoRunsList)));
}

// ---------------------------------------------------------------- questions and plan turns

#[test]
fn interactive_answers_keep_last_selection_per_question() {
    let payload = selections_payload(&vec![
        ("q1".to_string(), "A".to_string()),
        ("q2".to_string(), "B".to_string()),
        ("q1".to_string(), "C".to_string()),
    ]);
    let inner = member(&payload, "answers");
    assert_eq!(keys(inner), vec!["q1", "q2"]);
    assert_eq!(strings(member(member(inner, "q1"), "answers")), vec!["C"]);
}

#[test]
fn interactive_lines_number_the_options() {
    let question = object(vec![
        ("header", js("Scope")),
        ("question", js("Pick one")),
        (
            "options",
            Json::Array(vec![
                object(vec![("label", js("A")), ("description", js("small"))]),
                object(vec![("label", js("B"))]),
            ]),
        ),
    ]);
    assert_eq!(interactive_lines(&question), vec!["Scope: Pick one", "  1. A - small", "  2. B - "]);
    let labels = options(&question);
    assert_eq!(interactive_selection(&labels, " 2\n").unwrap(), "B");
    assert_eq!(interactive_selection(&labels, "0").unwrap(), "A");
    assert_eq!(interactive_selection(&labels, "custom").unwrap(), "custom");
    assert!(matches!(
        interactive_selection(&labels, "  \n"),
        Err(QuestionError::EmptyAnswer)
    ));
    assert_eq!(interactive_lines(&object(vec![])), vec![": Choose an option"]);
}

#[test]
fn automatic_answers_and_their_refusals() {
    let message = |questions: Vec<Json>| {
        object(vec![("id", num(4)), ("params", object(vec![("questions", Json::Array(questions))]))])
    };
    let q = object(vec![
        ("id", js("scope")),
        ("options", Json::Array(vec![object(vec![("label", js("A"))]), object(vec![("label", js("B (recommended)"))])])),
    ]);
    match answer_questions(QuestionMode::AutoRecommended, &message(vec![q])).unwrap() {
        QuestionAnswer::Answered(a) => {
            assert_eq!(strings(member(member(member(&a, "answers"), "scope"), "answers")), vec!["B (recommended)"]);
        }
        other => panic!("unexpected {other:?}"),
    }
    assert!(matches!(
        answer_questions(QuestionMode::AutoFirst, &message(vec![object(vec![])])),
        Err(QuestionError::MissingId)
    ));
    assert!(matches!(
        answer_questions(QuestionMode::AutoFirst, &message(vec![object(vec![("id", js("q"))])])),
        Err(QuestionError::NoSelectableOption(ref id)) if id == "q"
    ));
    match answer_questions(QuestionMode::Fail, &message(vec![])).unwrap() {
        QuestionAnswer::NeedsInput(p) => assert!(matches!(member(&p, "request_id"), Json::Number(JsonNumber::PosInt(4)))),
        other => panic!("unexpected {other:?}"),
    }
    let wrapped = external_answer(&object(vec![("answers", object(vec![]))])).unwrap();
    assert_eq!(keys(&wrapped), vec!["answers"]);
    assert!(matches!(external_answer(&object(vec![])), Err(QuestionError::NoResultOrAnswers)));
    assert!(matches!(build_answer("q", &Vec::new()), Err(QuestionError::NoAnswerValue)));
}

#[test]
fn plan_turn_records_questions_and_completes() {
    let mut run = PlanRun::new("t1", None, None, Some("/home/u/.codex".to_string()), None);
    assert!(matches!(run.on_message(1, &input_request(9)), PlanStep::Question(Json::Number(JsonNumber::PosInt(9)))));
    run.record_answer(object(vec![("answers", object(vec![]))]));
    let item = object(vec![
        ("method", js("item/completed")),
        ("params", object(vec![("item", object(vec![("type", js("agentMessage")), ("text", js("x<proposed_plan> P </proposed_plan>"))]))])),
    ]);
    assert!(matches!(run.on_message(1, &item), PlanStep::Continue));
    assert!(matches!(run.on_message(1, &object(vec![("method", js("turn/completed"))])), PlanStep::Finished));
    let report = run.into_json();
    assert!(matches!(member(&report, "ok"), Json::Bool(true)));
    assert_eq!(strings(member(&report, "plans")), vec!["P"]);
    assert_eq!(
        as_text(member(&report, "resume_command")).as_deref(),
        Some("CODEX_HOME=/home/u/.codex codex resume --include-non-interactive t1")
    );
}

#[test]
fn event_and_read_params() {
    let e = event_line(&num(1));
    assert_eq!(keys(&e), vec!["type", "event"]);
    let p = thread_read_params("t", true);
    assert!(matches!(member(&p, "includeTurns"), Json::Bool(false)));
}

#[test]
fn pair_order_does_not_change_distinct_questions() {
    let one = build_session_answer(&pairs(&["b=1", "a=2"]), None).unwrap();
    let two = build_session_answer(&pairs(&["a=2", "b=1"]), None).unwrap();
    assert!(same(&one, &two));
}

#[test]
fn aliases_read_as_their_options() {
    let long = Cli::try_parse_from(&["codexctl", "plan", "--prompt", "p", "--full-auto", "--timeout", "30"]).unwrap();
    let alias = Cli::try_parse_from(&[
        "codexctl",
        "plan",
        "--prompt",
        "p",
        "--dangerously-full-access",
        "--timeout-secs=30",
    ])
    .unwrap();
    match (long.command, alias.command) {
        (Commands::Plan(a), Commands::Plan(b)) => {
            assert!(a.runtime.full_auto && b.runtime.full_auto);
            assert_eq!(a.timeout, b.timeout);
            assert_eq!(b.timeout, RunTimeout::from_limit(Some(30)));
        }
        _ => panic!("expected plan commands"),
    }
    let twice = Cli::try_parse_from(&["codexctl", "plan", "--full-auto", "--dangerously-full-access"]);
    assert!(matches!(twice, Err(ref e) if e.kind == CliErrorKind::Duplicate));
}

#[test]
fn proposed_plan_block_is_found_or_not() {
    assert_eq!(
        codexctl::util::extract_proposed_plan("a<proposed_plan> x < y </proposed_plan>b").as_deref(),
        Some("x < y")
    );
    assert!(codexctl::util::extract_proposed_plan("a<proposed_plan> open only").is_none());
    assert!(codexctl::util::extract_proposed_plan("</proposed_plan><proposed_plan>").is_none());
}

#[test]
fn script_safe_breaks_closing_tags() {
    let safe = codexctl::viewer::script_safe("</script></script><!--<!--");
    assert!(!safe.contains("</script"));
    assert!(!safe.contains("<!--"));
    assert_eq!(safe, "<\\/script><\\/script><\\!--<\\!--");
}

#[test]
fn json_literals_escape_quotes_backslashes_and_controls() {
    assert_eq!(js_string("\u{1}\t\"é\\\u{1f}").unwrap(), "\"\\u0001\\t\\\"é\\\\\\u001f\"");
}

#[test]
fn limit_errors_name_the_setting() {
    assert_eq!(parse_limit("10000000000"), Ok(Some(10_000_000_000)));
    let error = parse_limit("10000000001").unwrap_err();
    assert_eq!(error, LimitError::TooLarge(10_000_000_001));
    assert_eq!(TokenBudget::error_message(&error), "token budget is too large to be useful: 10000000001");
    assert_eq!(
        RunTimeout::error_message(&parse_limit("soon").unwrap_err()),
        "timeout must be a positive integer or unlimited"
    );
    let refused = Cli::try_parse_from(&["codexctl", "plan", "--token-budget", "10000000001"]).unwrap_err();
    assert_eq!(refused.kind, CliErrorKind::InvalidValue);
    let option = refused.option.unwrap();
    assert_eq!(
        codexctl::argv::invalid_value_message(option, &refused.token),
        "invalid value '10000000001' for '--token-budget': token budget is too large to be useful: 10000000001"
    );
}

#[test]
fn daemon_start_wait_gives_up_after_the_last_attempt() {
    assert!(matches!(start_wait_begin(), StartWait::Pause(100)));
    assert!(matches!(start_wait_step(0, "/s", None), StartWait::Pause(100)));
    assert!(matches!(start_wait_step(START_ATTEMPTS - 1, "/s", None), StartWait::GiveUp));
    match start_wait_step(3, "/s", Some(object(vec![("ok", Json::Bool(true))]))) {
        StartWait::Started(report) => assert_eq!(as_text(member(&report, "socket_path")).as_deref(), Some("/s")),
        other => panic!("unexpected {other:?}"),
    }
}

// ---------------------------------------------------------------- error messages

#[test]
fn error_messages_name_what_was_refused() {
    assert_eq!(InputError::NoPrompt.message(), "plan requires --prompt or --prompt-file");
    assert_eq!(
        InputError::BadAnswer("q1".to_string()).message(),
        "answer must be QUESTION_ID=VALUE, got q1"
    );
    assert_eq!(
        SessionError::UnknownLogMode("loud".to_string()).message("r1"),
        "unknown log mode loud"
    );
    assert_eq!(
        SessionError::PendingQuestion.message("r1"),
        "run r1 has a pending structured question; call session answer first"
    );
    assert_eq!(SessionError::UnknownRun("r9".to_string()).message("r1"), "unknown run id: r9");
    assert_eq!(
        QuestionError::NoSelectableOption("q2".to_string()).message(),
        "question q2 has no selectable option"
    );
    assert_eq!(
        ProtocolError::InitializeFailed(Json::Null).message("{\"code\":1}"),
        "initialize failed: {\"code\":1}"
    );
    assert_eq!(
        ProtocolError::MissingThreadId.message(""),
        "thread/start response missing result.thread.id"
    );
    assert_eq!(
        ViewError::NoThreadPath("r2".to_string()).message(),
        "run r2 has no local thread_path yet"
    );
}

#[test]
fn command_line_errors_read_as_messages() {
    let unknown = Cli::try_parse_from(&["codexctl", "plan", "--bogus"]).unwrap_err();
    assert_eq!(unknown.message(), "error: unexpected argument '--bogus' found");
    let help = Cli::try_parse_from(&["codexctl", "--help"]).unwrap_err();
    assert_eq!(help.message(), "");
    let refused = Cli::try_parse_from(&["codexctl", "plan", "--token-budget", "soon"]).unwrap_err();
    assert_eq!(
        refused.message(),
        "error: invalid value 'soon' for '--token-budget': token budget must be a positive integer or unlimited"
    );
}
