use std::str::FromStr;

use codexctl::cli::{Cli, Commands, SessionCommand};
use codexctl::settings::{RunTimeout, TokenBudget};

#[test]
fn default_codex_home_is_unset() {
    let cli = Cli::try_parse_from(&["codexctl", "doctor"]).unwrap();
    assert!(cli.codex_home.is_none());
    assert!(matches!(cli.command, Commands::Doctor));
}

#[test]
fn parses_guide_command() {
    let cli = Cli::try_parse_from(&["codexctl", "guide"]).unwrap();
    assert!(matches!(cli.command, Commands::Guide));
}

#[test]
fn parses_codex_home_alias() {
    let cli =
        Cli::try_parse_from(&["codexctl", "--account-home", "/tmp/codex-work", "doctor"]).unwrap();
    assert_eq!(cli.codex_home, Some("/tmp/codex-work".to_string()));
}

#[test]
fn parses_session_start_detach() {
    let cli = Cli::try_parse_from(&["codexctl", "session", "start", "--prompt", "hello", "--detach"])
        .unwrap();
    let Commands::Session(SessionCommand::Start(args)) = cli.command else {
        panic!("expected session start command");
    };
    assert!(args.detach);
}

#[test]
fn parses_session_answer_pick_and_execute_aliases() {
    let answer = Cli::try_parse_from(&[
        "codexctl",
        "session",
        "answer",
        "--run-id",
        "run-1",
        "--pick",
        "recommended",
    ])
    .unwrap();
    let Commands::Session(SessionCommand::Answer(args)) = answer.command else {
        panic!("expected session answer command");
    };
    assert_eq!(args.pick.as_deref(), Some("recommended"));

    let execute = Cli::try_parse_from(&[
        "codexctl",
        "session",
        "execute",
        "--run-id",
        "run-1",
        "--reasoning-effort",
        "high",
    ])
    .unwrap();
    assert!(matches!(
        execute.command,
        Commands::Session(SessionCommand::Execute(_))
    ));

    let read = Cli::try_parse_from(&["codexctl", "session", "read", "--run-id", "run-1"]).unwrap();
    assert!(matches!(read.command, Commands::Session(SessionCommand::Read(_))));

    let watch =
        Cli::try_parse_from(&["codexctl", "session", "watch", "--run-id", "run-1"]).unwrap();
    assert!(matches!(watch.command, Commands::Session(SessionCommand::Watch(_))));
}

#[test]
fn parses_view_file() {
    let cli = Cli::try_parse_from(&[
        "codexctl",
        "view",
        "sample-session.jsonl",
        "--no-open",
        "--out",
        "target/view.html",
    ])
    .unwrap();
    let Commands::View(args) = cli.command else {
        panic!("expected view command");
    };
    assert_eq!(args.file, Some("sample-session.jsonl".to_string()));
    assert_eq!(args.out, Some("target/view.html".to_string()));
    assert!(args.viewer_html.is_none());
    assert!(args.no_open);
}

#[test]
fn parses_external_viewer_template() {
    let cli = Cli::try_parse_from(&[
        "codexctl",
        "view",
        "sample-session.jsonl",
        "--viewer-html",
        "viewer.html",
    ])
    .unwrap();
    let Commands::View(args) = cli.command else {
        panic!("expected view command");
    };
    assert_eq!(args.viewer_html, Some("viewer.html".to_string()));
}

#[test]
fn parses_view_run_id() {
    let cli = Cli::try_parse_from(&["codexctl", "view", "--run-id", "run-1", "--no-open"]).unwrap();
    let Commands::View(args) = cli.command else {
        panic!("expected view command");
    };
    assert_eq!(args.run_id.as_deref(), Some("run-1"));
    assert!(args.file.is_none());
}

#[test]
fn parses_unlimited_token_budget() {
    assert_eq!(TokenBudget::from_str("unlimited").unwrap(), TokenBudget::Unlimited);
    assert_eq!(TokenBudget::from_str("0").unwrap(), TokenBudget::Unlimited);
}

#[test]
fn parses_limited_token_budget() {
    assert_eq!(TokenBudget::from_str("6000").unwrap().as_protocol_value(), Some(6000));
}

#[test]
fn parses_unlimited_runtime_timeout() {
    assert_eq!(RunTimeout::from_str("infinite").unwrap(), RunTimeout::Unlimited);
    assert!(RunTimeout::from_str("0").unwrap().duration().is_none());
}

#[test]
fn parses_limited_runtime_timeout() {
    assert_eq!(RunTimeout::from_str("120").unwrap().duration().unwrap().as_secs(), 120);
}
