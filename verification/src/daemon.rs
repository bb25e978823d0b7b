use vstd::prelude::*;
use vstd::string::*;

use crate::cli::{SessionSendArgs, SessionStartArgs};
use crate::json::{Json, JsonV, ObjectBuilder, jget, jstr, ju64, opt_str, or_null, str_array, str_or_null, string_array, strs};
use crate::requests::{goal_set_params, goal_set_view, jtext, juint, turn_start_params, turn_start_view};
use crate::session::{RunState, SessionError, path_at, string_at};
use crate::settings::{EffectiveRuntime, LogMode, RunTimeout, TokenBudget, effort_protocol, log_mode_name, log_mode_named, log_mode_text, parse_log_mode};
use crate::text::{owned, push_str, str_eq};
use crate::util::{shell_quote, shell_quoted};

verus! {

/// An optional count: the number, or `null`.
pub open spec fn uint_or_null(n: Option<u64>) -> JsonV {
    match n {
        Some(v) => juint(v),
        None => JsonV::Null,
    }
}

fn opt_uint(n: Option<u64>) -> (r: Json)
    ensures
        r@ == uint_or_null(n),
{
    match n {
        Some(v) => Json::uint(v),
        None => Json::Null,
    }
}

fn opt_text_ref(s: &Option<String>) -> (r: Json)
    ensures
        r@ == str_or_null(opt_str(*s)),
{
    Json::opt_text(s)
}

// ---------------------------------------------------------------- requests sent to the daemon

/// The client settings a `session_start` request carries to the daemon.
pub open spec fn session_config_view(
    codex_bin: Seq<char>,
    codex_home: Option<Seq<char>>,
    log_dir: Option<Seq<char>>,
    log_mode: LogMode,
) -> JsonV {
    JsonV::Object(
        seq![
            ("codexBin"@, jtext(codex_bin)),
            ("codexHome"@, str_or_null(codex_home)),
            ("logDir"@, str_or_null(log_dir)),
            ("logMode"@, jtext(log_mode_text(log_mode))),
        ],
    )
}

pub fn session_config(
    codex_bin: &str,
    codex_home: &Option<String>,
    log_dir: &Option<String>,
    log_mode: LogMode,
) -> (r: Json)
    ensures
        r@ == session_config_view(codex_bin@, opt_str(*codex_home), opt_str(*log_dir), log_mode),
{
    let mut b = ObjectBuilder::new();
    b.add("codexBin", Json::text(codex_bin));
    b.add("codexHome", opt_text_ref(codex_home));
    b.add("logDir", opt_text_ref(log_dir));
    b.add("logMode", Json::text(log_mode_name(log_mode)));
    assert(b.model() =~= (session_config_view(codex_bin@, opt_str(*codex_home), opt_str(*log_dir), log_mode))->Object_0);
    b.build()
}

/// The `session_start` request.
pub open spec fn session_start_view(
    config: JsonV,
    prompt: Seq<char>,
    objective: Option<Seq<char>>,
    token_budget: Option<u64>,
    effort: Seq<char>,
    model: Option<Seq<char>>,
    timeout: Option<u64>,
    cwd: Seq<char>,
    sandbox: Seq<char>,
    approval_policy: Seq<char>,
) -> JsonV {
    JsonV::Object(
        seq![
            ("type"@, jtext("session_start"@)),
            ("config"@, config),
            ("prompt"@, jtext(prompt)),
            ("objective"@, str_or_null(objective)),
            ("tokenBudget"@, uint_or_null(token_budget)),
            ("effort"@, jtext(effort)),
            ("model"@, str_or_null(model)),
            ("timeoutSecs"@, uint_or_null(timeout)),
            ("runtime"@, JsonV::Object(
                seq![
                    ("cwd"@, jtext(cwd)),
                    ("sandbox"@, jtext(sandbox)),
                    ("approvalPolicy"@, jtext(approval_policy)),
                ],
            )),
        ],
    )
}

/// The `session_start` request of `session start`, once its prompt is read and its runtime
/// settings resolved.
pub fn session_start_request(
    config: Json,
    args: &SessionStartArgs,
    prompt: &str,
    runtime: &EffectiveRuntime,
) -> (r: Json)
    ensures
        r@ == session_start_view(
            config@,
            prompt@,
            opt_str(args.objective),
            args.token_budget.as_limit(),
            effort_protocol(args.effort),
            opt_str(args.model),
            args.timeout.as_limit(),
            runtime.cwd@,
            runtime.sandbox@,
            runtime.approval_policy@,
        ),
{
    let ghost cv = config@;
    let mut rt = ObjectBuilder::new();
    rt.add("cwd", Json::text(runtime.cwd.as_str()));
    rt.add("sandbox", Json::text(runtime.sandbox.as_str()));
    rt.add("approvalPolicy", Json::text(runtime.approval_policy.as_str()));
    assert(rt.model() =~= seq![
        ("cwd"@, jtext(runtime.cwd@)),
        ("sandbox"@, jtext(runtime.sandbox@)),
        ("approvalPolicy"@, jtext(runtime.approval_policy@)),
    ]);
    let rtj = rt.build();
    let mut b = ObjectBuilder::new();
    b.add("type", Json::text("session_start"));
    b.add("config", config);
    b.add("prompt", Json::text(prompt));
    b.add("objective", opt_text_ref(&args.objective));
    b.add("tokenBudget", opt_uint(args.token_budget.as_protocol_value()));
    b.add("effort", Json::text(args.effort.as_protocol()));
    b.add("model", opt_text_ref(&args.model));
    b.add("timeoutSecs", opt_uint(args.timeout.seconds()));
    b.add("runtime", rtj);
    assert(b.model() =~= (session_start_view(
        cv,
        prompt@,
        opt_str(args.objective),
        args.token_budget.as_limit(),
        effort_protocol(args.effort),
        opt_str(args.model),
        args.timeout.as_limit(),
        runtime.cwd@,
        runtime.sandbox@,
        runtime.approval_policy@,
    ))->Object_0);
    b.build()
}

/// The `session_answer` request.
pub open spec fn session_answer_view(run_id: Seq<char>, answer: JsonV, timeout: Option<u64>) -> JsonV {
    JsonV::Object(
        seq![
            ("type"@, jtext("session_answer"@)),
            ("runId"@, jtext(run_id)),
            ("answer"@, answer),
            ("timeoutSecs"@, uint_or_null(timeout)),
        ],
    )
}

pub fn session_answer_request(run_id: &str, answer: Json, timeout: RunTimeout) -> (r: Json)
    ensures
        r@ == session_answer_view(run_id@, answer@, timeout.as_limit()),
{
    let ghost av = answer@;
    let mut b = ObjectBuilder::new();
    b.add("type", Json::text("session_answer"));
    b.add("runId", Json::text(run_id));
    b.add("answer", answer);
    b.add("timeoutSecs", opt_uint(timeout.seconds()));
    assert(b.model() =~= (session_answer_view(run_id@, av, timeout.as_limit()))->Object_0);
    b.build()
}

/// The `session_send` request.
pub open spec fn session_send_view(
    run_id: Seq<char>,
    prompt: Seq<char>,
    effort: Seq<char>,
    model: Option<Seq<char>>,
    timeout: Option<u64>,
) -> JsonV {
    JsonV::Object(
        seq![
            ("type"@, jtext("session_send"@)),
            ("runId"@, jtext(run_id)),
            ("prompt"@, jtext(prompt)),
            ("effort"@, jtext(effort)),
            ("model"@, str_or_null(model)),
            ("timeoutSecs"@, uint_or_null(timeout)),
        ],
    )
}

/// The `session_send` request of `session send`, once its prompt is read.
pub fn session_send_request(args: &SessionSendArgs, prompt: &str) -> (r: Json)
    ensures
        r@ == session_send_view(
            args.run_id@,
            prompt@,
            effort_protocol(args.effort),
            opt_str(args.model),
            args.timeout.as_limit(),
        ),
{
    let mut b = ObjectBuilder::new();
    b.add("type", Json::text("session_send"));
    b.add("runId", Json::text(args.run_id.as_str()));
    b.add("prompt", Json::text(prompt));
    b.add("effort", Json::text(args.effort.as_protocol()));
    b.add("model", opt_text_ref(&args.model));
    b.add("timeoutSecs", opt_uint(args.timeout.seconds()));
    assert(b.model() =~= (session_send_view(
        args.run_id@,
        prompt@,
        effort_protocol(args.effort),
        opt_str(args.model),
        args.timeout.as_limit(),
    ))->Object_0);
    b.build()
}

/// A request naming a run: `{"type": kind, "runId": run_id}`.
pub fn run_id_request(kind: &str, run_id: &str) -> (r: Json)
    ensures
        r@ == JsonV::Object(seq![("type"@, jtext(kind@)), ("runId"@, jtext(run_id@))]),
{
    let mut b = ObjectBuilder::new();
    b.add("type", Json::text(kind));
    b.add("runId", Json::text(run_id));
    assert(b.model() =~= (JsonV::Object(seq![("type"@, jtext(kind@)), ("runId"@, jtext(run_id@))]))->Object_0);
    b.build()
}

/// The shell command that starts the daemon in the background.
pub open spec fn spawn_command_text(exe: Seq<char>, socket_path: Seq<char>) -> Seq<char> {
    "nohup "@ + shell_quoted(exe) + " --session-socket "@ + shell_quoted(socket_path)
        + " daemon serve >/dev/null 2>&1 &"@
}

pub fn daemon_spawn_command(exe: &str, socket_path: &str) -> (r: String)
    ensures
        r@ == spawn_command_text(exe@, socket_path@),
{
    let mut out = owned("nohup ");
    let e = shell_quote(exe);
    push_str(&mut out, e.as_str());
    push_str(&mut out, " --session-socket ");
    let s = shell_quote(socket_path);
    push_str(&mut out, s.as_str());
    push_str(&mut out, " daemon serve >/dev/null 2>&1 &");
    out
}

// ---------------------------------------------------------------- what the daemon answers

/// The kinds of daemon requests.
#[derive(Debug, Clone, Copy, PartialEq, Eq, Structural)]
pub enum DaemonRequest {
    Status,
    Stop,
    Start,
    Answer,
    Send,
    Read,
    StopRun,
    Unknown,
}

/// The kind named by a request's `type`.
pub open spec fn request_kind(kind: Option<Seq<char>>) -> DaemonRequest {
    match kind {
        Some(k) => if k == "daemon_status"@ {
            DaemonRequest::Status
        } else if k == "daemon_stop"@ {
            DaemonRequest::Stop
        } else if k == "session_start"@ {
            DaemonRequest::Start
        } else if k == "session_answer"@ {
            DaemonRequest::Answer
        } else if k == "session_send"@ {
            DaemonRequest::Send
        } else if k == "session_read"@ {
            DaemonRequest::Read
        } else if k == "session_stop"@ {
            DaemonRequest::StopRun
        } else {
            DaemonRequest::Unknown
        },
        None => DaemonRequest::Unknown,
    }
}

/// What a daemon request asks for.
pub fn classify_request(request: &Json) -> (r: DaemonRequest)
    ensures
        r == request_kind(jstr(jget(request@, "type"@))),
{
    let kind = match request.get("type") {
        Some(t) => t.as_str(),
        None => None,
    };
    match kind {
        Some(k) => if str_eq(k, "daemon_status") {
            DaemonRequest::Status
        } else if str_eq(k, "daemon_stop") {
            DaemonRequest::Stop
        } else if str_eq(k, "session_start") {
            DaemonRequest::Start
        } else if str_eq(k, "session_answer") {
            DaemonRequest::Answer
        } else if str_eq(k, "session_send") {
            DaemonRequest::Send
        } else if str_eq(k, "session_read") {
            DaemonRequest::Read
        } else if str_eq(k, "session_stop") {
            DaemonRequest::StopRun
        } else {
            DaemonRequest::Unknown
        },
        None => DaemonRequest::Unknown,
    }
}

/// `format!("{:?}", s)` of a `&str`: the string quoted, with `escape_debug` escapes.
pub uninterp spec fn debug_quoted(s: Seq<char>) -> Seq<char>;

/// `format!("{:?}", s)`, std's `Debug` for `str`, trusted to give the same text for the same
/// string (the text named `debug_quoted`); nothing more is claimed of its escapes.
#[verifier::external_body]
fn debug_str(s: &str) -> (r: String)
    ensures
        r@ == debug_quoted(s@),
{
    format!("{:?}", s)
}

/// An optional request type as `{:?}` shows it: `None`, or `Some(..)` around the quoted text.
pub open spec fn debug_option(kind: Option<Seq<char>>) -> Seq<char> {
    match kind {
        Some(k) => "Some("@ + debug_quoted(k) + ")"@,
        None => "None"@,
    }
}

/// A failure answered by the daemon.
pub open spec fn failure_view(message: Seq<char>) -> JsonV {
    JsonV::Object(
        seq![("ok"@, JsonV::Bool(false)), ("status"@, jtext("failed"@)), ("error"@, jtext(message))],
    )
}

pub fn failure_report(message: &str) -> (r: Json)
    ensures
        r@ == failure_view(message@),
{
    let mut b = ObjectBuilder::new();
    b.add("ok", Json::Bool(false));
    b.add("status", Json::text("failed"));
    b.add("error", Json::text(message));
    assert(b.model() =~= (failure_view(message@))->Object_0);
    b.build()
}

/// The answer to a request whose type shows as `shown` (its `{:?}` form).
pub fn unknown_type_report(shown: &str) -> (r: Json)
    ensures
        r@ == failure_view("unknown daemon request type: "@ + shown@),
{
    let mut msg = owned("unknown daemon request type: ");
    push_str(&mut msg, shown);
    failure_report(msg.as_str())
}

/// The answer to a request of an unknown type.
pub fn unknown_request_report(request: &Json) -> (r: Json)
    ensures
        r@ == failure_view(
            "unknown daemon request type: "@ + debug_option(jstr(jget(request@, "type"@))),
        ),
{
    let kind = match request.get("type") {
        Some(t) => t.as_str(),
        None => None,
    };
    let shown = match kind {
        Some(k) => {
            let mut s = owned("Some(");
            let d = debug_str(k);
            push_str(&mut s, d.as_str());
            push_str(&mut s, ")");
            s
        },
        None => owned("None"),
    };
    unknown_type_report(shown.as_str())
}

/// The answer to `daemon_status`: running, with the ids of its runs.
pub fn daemon_status_report(run_ids: &Vec<String>) -> (r: Json)
    ensures
        r@ == JsonV::Object(
            seq![
                ("ok"@, JsonV::Bool(true)),
                ("status"@, jtext("running"@)),
                ("runs"@, str_array(strs(run_ids@))),
            ],
        ),
{
    let mut b = ObjectBuilder::new();
    b.add("ok", Json::Bool(true));
    b.add("status", Json::text("running"));
    b.add("runs", string_array(run_ids));
    assert(b.model() =~= (JsonV::Object(
        seq![
            ("ok"@, JsonV::Bool(true)),
            ("status"@, jtext("running"@)),
            ("runs"@, str_array(strs(run_ids@))),
        ],
    ))->Object_0);
    b.build()
}

/// The answer to `daemon_stop`: stopping, with the number of runs it drops.
pub fn daemon_stopping_report(run_count: usize) -> (r: Json)
    ensures
        r@ == JsonV::Object(
            seq![
                ("ok"@, JsonV::Bool(true)),
                ("status"@, jtext("stopping"@)),
                ("stopped_runs"@, juint(run_count as u64)),
            ],
        ),
{
    let mut b = ObjectBuilder::new();
    b.add("ok", Json::Bool(true));
    b.add("status", Json::text("stopping"));
    b.add("stopped_runs", Json::uint(run_count as u64));
    assert(b.model() =~= (JsonV::Object(
        seq![
            ("ok"@, JsonV::Bool(true)),
            ("status"@, jtext("stopping"@)),
            ("stopped_runs"@, juint(run_count as u64)),
        ],
    ))->Object_0);
    b.build()
}

/// The answer to `session_stop`: whether the run existed.
pub open spec fn run_stop_view(existed: bool, run_id: Seq<char>) -> JsonV {
    JsonV::Object(
        seq![
            ("ok"@, JsonV::Bool(existed)),
            ("status"@, jtext(if existed { "stopped"@ } else { "not_found"@ })),
            ("run_id"@, jtext(run_id)),
        ],
    )
}

pub fn run_stop_report(existed: bool, run_id: &str) -> (r: Json)
    ensures
        r@ == run_stop_view(existed, run_id@),
{
    let mut b = ObjectBuilder::new();
    b.add("ok", Json::Bool(existed));
    b.add("status", Json::text(if existed { "stopped" } else { "not_found" }));
    b.add("run_id", Json::text(run_id));
    assert(b.model() =~= (run_stop_view(existed, run_id@))->Object_0);
    b.build()
}

/// What `daemon serve` reports once it stops listening.
pub fn daemon_stopped_report() -> (r: Json)
    ensures
        r@ == JsonV::Object(seq![("ok"@, JsonV::Bool(true)), ("status"@, jtext("stopped"@))]),
{
    let mut b = ObjectBuilder::new();
    b.add("ok", Json::Bool(true));
    b.add("status", Json::text("stopped"));
    assert(b.model() =~= (JsonV::Object(seq![("ok"@, JsonV::Bool(true)), ("status"@, jtext("stopped"@))]))->Object_0);
    b.build()
}

/// What `daemon status` reports when no daemon answers.
pub open spec fn not_running_view(socket_path: Seq<char>, error: Seq<char>) -> JsonV {
    JsonV::Object(
        seq![
            ("ok"@, JsonV::Bool(false)),
            ("status"@, jtext("not_running"@)),
            ("socket_path"@, jtext(socket_path)),
            ("error"@, jtext(error)),
        ],
    )
}

pub fn daemon_not_running_report(socket_path: &str, error: &str) -> (r: Json)
    ensures
        r@ == not_running_view(socket_path@, error@),
{
    let mut b = ObjectBuilder::new();
    b.add("ok", Json::Bool(false));
    b.add("status", Json::text("not_running"));
    b.add("socket_path", Json::text(socket_path));
    b.add("error", Json::text(error));
    assert(b.model() =~= (not_running_view(socket_path@, error@))->Object_0);
    b.build()
}

/// What is reported once a daemon this client started answers its first status request.
pub open spec fn started_view(socket_path: Seq<char>, daemon: JsonV) -> JsonV {
    JsonV::Object(
        seq![
            ("ok"@, JsonV::Bool(true)),
            ("status"@, jtext("running"@)),
            ("started"@, JsonV::Bool(true)),
            ("socket_path"@, jtext(socket_path)),
            ("daemon"@, daemon),
        ],
    )
}

pub fn daemon_started_report(socket_path: &str, daemon: Json) -> (r: Json)
    ensures
        r@ == started_view(socket_path@, daemon@),
{
    let ghost dv = daemon@;
    let mut b = ObjectBuilder::new();
    b.add("ok", Json::Bool(true));
    b.add("status", Json::text("running"));
    b.add("started", Json::Bool(true));
    b.add("socket_path", Json::text(socket_path));
    b.add("daemon", daemon);
    assert(b.model() =~= (started_view(socket_path@, dv))->Object_0);
    b.build()
}

/// How long a client waits between status requests to a daemon it has just spawned.
pub const START_PAUSE_MS: u64 = 100;

/// How many status requests a client makes before it gives up on a daemon it spawned.
pub const START_ATTEMPTS: u32 = 50;

/// What a client does next while a daemon it spawned starts.
#[derive(Debug)]
pub enum StartWait {
    /// Wait this many milliseconds, then ask for the daemon's status.
    Pause(u64),
    /// The daemon answered; this is the report.
    Started(Json),
    /// No answer came in time.
    GiveUp,
}

/// The first thing to do after spawning the daemon: wait before the first status request.
pub fn start_wait_begin() -> (r: StartWait)
    ensures
        r matches StartWait::Pause(ms) && ms == START_PAUSE_MS,
{
    StartWait::Pause(START_PAUSE_MS)
}

/// What follows the status request numbered `attempt` (from 0): the report once the daemon
/// answered; otherwise another pause, until `START_ATTEMPTS` requests went unanswered.
pub fn start_wait_step(attempt: u32, socket_path: &str, status: Option<Json>) -> (r: StartWait)
    ensures
        match status {
            Some(s) => r matches StartWait::Started(x) && x@ == started_view(socket_path@, s@),
            None => if attempt + 1 < START_ATTEMPTS {
                r matches StartWait::Pause(ms) && ms == START_PAUSE_MS
            } else {
                r is GiveUp
            },
        },
{
    match status {
        Some(s) => StartWait::Started(daemon_started_report(socket_path, s)),
        None => if attempt < START_ATTEMPTS - 1 {
            StartWait::Pause(START_PAUSE_MS)
        } else {
            StartWait::GiveUp
        },
    }
}

// ---------------------------------------------------------------- starting a run in the daemon

/// What a `session_start` request holds, as the daemon reads it.
pub struct StartFields {
    pub codex_bin: Seq<char>,
    pub codex_home: Option<Seq<char>>,
    pub log_dir: Option<Seq<char>>,
    pub log_mode: LogMode,
    pub cwd: Seq<char>,
    pub sandbox: Seq<char>,
    pub approval_policy: Seq<char>,
    pub prompt: Seq<char>,
    pub timeout: Option<u64>,
    pub model: Option<Seq<char>>,
}

/// Why a `session_start` request cannot be read.
pub enum StartProblem {
    Missing(Seq<char>),
    UnknownLogMode(Seq<char>),
}

/// Reads a `session_start` request, field after field; the first missing string field (or an
/// unknown log mode) refuses it.
pub open spec fn start_fields(request: JsonV) -> Result<StartFields, StartProblem> {
    let config = or_null(jget(request, "config"@));
    let runtime = or_null(jget(request, "runtime"@));
    match jstr(jget(config, "codexBin"@)) {
        None => Err(StartProblem::Missing("codexBin"@)),
        Some(codex_bin) => match jstr(jget(config, "logMode"@)) {
            None => Err(StartProblem::Missing("logMode"@)),
            Some(mode) => match log_mode_named(mode) {
                None => Err(StartProblem::UnknownLogMode(mode)),
                Some(log_mode) => match jstr(jget(runtime, "cwd"@)) {
                    None => Err(StartProblem::Missing("cwd"@)),
                    Some(cwd) => match jstr(jget(runtime, "sandbox"@)) {
                        None => Err(StartProblem::Missing("sandbox"@)),
                        Some(sandbox) => match jstr(jget(runtime, "approvalPolicy"@)) {
                            None => Err(StartProblem::Missing("approvalPolicy"@)),
                            Some(approval_policy) => match jstr(jget(request, "prompt"@)) {
                                None => Err(StartProblem::Missing("prompt"@)),
                                Some(prompt) => Ok(
                                    StartFields {
                                        codex_bin,
                                        codex_home: jstr(jget(config, "codexHome"@)),
                                        log_dir: jstr(jget(config, "logDir"@)),
                                        log_mode,
                                        cwd,
                                        sandbox,
                                        approval_policy,
                                        prompt,
                                        timeout: ju64(jget(request, "timeoutSecs"@)),
                                        model: jstr(jget(request, "model"@)),
                                    },
                                ),
                            },
                        },
                    },
                },
            },
        },
    }
}

/// The settings of a run the daemon is asked to start.
#[derive(Debug)]
pub struct StartSettings {
    pub codex_bin: String,
    pub codex_home: Option<String>,
    pub log_dir: Option<String>,
    pub log_mode: LogMode,
    pub runtime: EffectiveRuntime,
    pub prompt: String,
    pub timeout: Option<u64>,
    pub model: Option<String>,
}

impl StartSettings {
    pub open spec fn model(&self) -> StartFields {
        StartFields {
            codex_bin: self.codex_bin@,
            codex_home: opt_str(self.codex_home),
            log_dir: opt_str(self.log_dir),
            log_mode: self.log_mode,
            cwd: self.runtime.cwd@,
            sandbox: self.runtime.sandbox@,
            approval_policy: self.runtime.approval_policy@,
            prompt: self.prompt@,
            timeout: self.timeout,
            model: opt_str(self.model),
        }
    }
}

/// Reads a `session_start` request.
pub fn start_settings(request: &Json) -> (r: Result<StartSettings, SessionError>)
    ensures
        match start_fields(request@) {
            Ok(f) => r matches Ok(s) && s.model() == f,
            Err(StartProblem::Missing(k)) => r matches Err(SessionError::MissingField(x)) && x@ == k,
            Err(StartProblem::UnknownLogMode(v)) => r matches Err(SessionError::UnknownLogMode(x))
                && x@ == v,
        },
{
    let config = request.member_or_null("config");
    let runtime = request.member_or_null("runtime");
    let codex_bin = string_at(&config, "codexBin")?;
    let codex_home = path_at(&config, "codexHome");
    let log_dir = path_at(&config, "logDir");
    let mode_text = string_at(&config, "logMode")?;
    let log_mode = match parse_log_mode(mode_text.as_str()) {
        Some(m) => m,
        None => {
            assert(log_mode_named(mode_text@) is None) by {
                assert(log_mode_text(LogMode::Off) == "off"@);
                assert(log_mode_text(LogMode::Summary) == "summary"@);
                assert(log_mode_text(LogMode::Full) == "full"@);
            }
            return Err(SessionError::UnknownLogMode(mode_text));
        },
    };
    assert(log_mode_named(mode_text@) == Some(log_mode)) by {
        reveal_strlit("off");
        reveal_strlit("summary");
        reveal_strlit("full");
        match log_mode {
            LogMode::Off => {},
            LogMode::Summary => {
                assert("summary"@ != "off"@) by {
                    assert("summary"@[0] != "off"@[0]);
                }
            },
            LogMode::Full => {
                assert("full"@ != "off"@) by {
                    assert("full"@[0] != "off"@[0]);
                }
                assert("full"@ != "summary"@) by {
                    assert("full"@[0] != "summary"@[0]);
                }
            },
        }
    }
    let cwd = string_at(&runtime, "cwd")?;
    let sandbox = string_at(&runtime, "sandbox")?;
    let approval_policy = string_at(&runtime, "approvalPolicy")?;
    let prompt = string_at(request, "prompt")?;
    let timeout = match request.get("timeoutSecs") {
        Some(v) => v.as_u64(),
        None => None,
    };
    let model = path_at(request, "model");
    Ok(
        StartSettings {
            codex_bin,
            codex_home,
            log_dir,
            log_mode,
            runtime: EffectiveRuntime { cwd, sandbox, approval_policy },
            prompt,
            timeout,
            model,
        },
    )
}

/// The params of `thread/goal/set` for a run the daemon starts: only when the request holds an
/// `objective`; the goal is active, with the request's `tokenBudget` when it holds one.
pub fn session_goal_params(thread_id: &str, request: &Json) -> (r: Option<Json>)
    ensures
        match jstr(jget(request@, "objective"@)) {
            Some(objective) => r matches Some(p) && p@ == goal_set_view(
                thread_id@,
                objective,
                Some("active"@),
                ju64(jget(request@, "tokenBudget"@)),
            ),
            None => r is None,
        },
{
    let objective = match request.get("objective") {
        Some(v) => match v.as_str() {
            Some(s) => s,
            None => {
                return None;
            },
        },
        None => {
            return None;
        },
    };
    let budget = match request.get("tokenBudget") {
        Some(v) => v.as_u64(),
        None => None,
    };
    Some(goal_set_params(thread_id, objective, Some("active"), budget))
}

/// The `turn/start` params of a run's turn: the request's `effort` is required.
pub fn run_turn_params(state: &RunState, prompt: &str, request: &Json) -> (r: Result<Json, SessionError>)
    ensures
        match jstr(jget(request@, "effort"@)) {
            Some(effort) => r matches Ok(p) && p@ == turn_start_view(
                state.thread_id@,
                prompt@,
                state.approval_policy@,
                state.thread_model@,
                effort,
            ),
            None => r matches Err(SessionError::MissingField(k)) && k@ == "effort"@,
        },
{
    let effort = string_at(request, "effort")?;
    Ok(
        turn_start_params(
            state.thread_id.as_str(),
            prompt,
            state.approval_policy.as_str(),
            state.thread_model.as_str(),
            effort.as_str(),
        ),
    )
}

} // verus!
