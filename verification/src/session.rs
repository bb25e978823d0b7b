use vstd::prelude::*;
use vstd::string::*;

use crate::json::{
    Json, JsonV, ObjectBuilder, jarray, jget, jpath, json_array, jsons, jstr, ju64, opt_json,
    opt_or_null, opt_str, opt_view, or_null, str_array, str_or_null, string_array, strs,
};
use crate::requests::{jtext, juint, turn_start_params, turn_start_view};
use crate::settings::{EffectiveRuntime, LogMode, log_mode_text, parse_log_mode};
use crate::text::{copy_string, owned, push_str, str_eq};
use crate::turn::{
    RunStatus, TurnRecord, TurnRecordV, collect_item_effect, delta_effect, empty_record,
    method_exec, method_of, params_or_null, status_text,
};
use crate::util::{answers_request, is_response_id, resume_command, resume_command_text};

verus! {

/// Why a daemon request could not be served.
#[derive(Debug)]
pub enum SessionError {
    /// A string field the request must hold.
    MissingField(String),
    /// A log mode that is not `off`, `summary` or `full`.
    UnknownLogMode(String),
    /// `session answer` on a run with no pending structured question.
    NoPendingQuestion,
    /// `session_answer` without an `answer`.
    MissingAnswer,
    /// `session send` on a run that waits for a structured answer.
    PendingQuestion,
    /// A run id the daemon does not know.
    UnknownRun(String),
}

/// What a session error is told as, for the run called `run_id`.
pub open spec fn session_error_text(e: SessionError, run_id: Seq<char>) -> Seq<char> {
    match e {
        SessionError::MissingField(key) => "missing string field "@ + key@,
        SessionError::UnknownLogMode(mode) => "unknown log mode "@ + mode@,
        SessionError::NoPendingQuestion => "run "@ + run_id + " has no pending structured question"@,
        SessionError::MissingAnswer => "session_answer missing answer"@,
        SessionError::PendingQuestion => "run "@ + run_id
            + " has a pending structured question; call session answer first"@,
        SessionError::UnknownRun(id) => "unknown run id: "@ + id@,
    }
}

impl SessionError {
    /// The message of the error, for a request on the run called `run_id`.
    pub fn message(&self, run_id: &str) -> (r: String)
        ensures
            r@ == session_error_text(*self, run_id@),
    {
        match self {
            SessionError::MissingField(key) => {
                let mut out = owned("missing string field ");
                push_str(&mut out, key.as_str());
                out
            },
            SessionError::UnknownLogMode(mode) => {
                let mut out = owned("unknown log mode ");
                push_str(&mut out, mode.as_str());
                out
            },
            SessionError::NoPendingQuestion => {
                let mut out = owned("run ");
                push_str(&mut out, run_id);
                push_str(&mut out, " has no pending structured question");
                out
            },
            SessionError::MissingAnswer => owned("session_answer missing answer"),
            SessionError::PendingQuestion => {
                let mut out = owned("run ");
                push_str(&mut out, run_id);
                push_str(&mut out, " has a pending structured question; call session answer first");
                out
            },
            SessionError::UnknownRun(id) => {
                let mut out = owned("unknown run id: ");
                push_str(&mut out, id.as_str());
                out
            },
        }
    }
}

/// The string at `key` of an object.
pub fn string_at(value: &Json, key: &str) -> (r: Result<String, SessionError>)
    ensures
        match jstr(jget(value@, key@)) {
            Some(s) => r matches Ok(x) && x@ == s,
            None => r matches Err(SessionError::MissingField(k)) && k@ == key@,
        },
{
    match value.get(key) {
        Some(v) => match v.as_str() {
            Some(s) => Ok(owned(s)),
            None => Err(SessionError::MissingField(owned(key))),
        },
        None => Err(SessionError::MissingField(owned(key))),
    }
}

/// The string at `key` of an object, when there is one (a path in a daemon request).
pub fn path_at(value: &Json, key: &str) -> (r: Option<String>)
    ensures
        opt_str(r) == jstr(jget(value@, key@)),
{
    match value.get(key) {
        Some(v) => match v.as_str() {
            Some(s) => Some(owned(s)),
            None => None,
        },
        None => None,
    }
}

/// The `timeoutSecs` of a daemon request, when it holds an unsigned integer.
pub fn timeout_at(value: &Json) -> (r: Option<u64>)
    ensures
        r == ju64(jget(value@, "timeoutSecs"@)),
{
    match value.get("timeoutSecs") {
        Some(v) => v.as_u64(),
        None => None,
    }
}

// ---------------------------------------------------------------- one run of the daemon

/// The state of one daemon run (everything but its app-server connection).
#[derive(Debug)]
pub struct RunState {
    pub run_id: String,
    pub thread_id: String,
    pub thread_model: String,
    pub approval_policy: String,
    pub codex_home: Option<String>,
    pub thread_path: Option<String>,
    pub log_path: Option<String>,
    pub goal: Option<Json>,
    pub status: RunStatus,
    pub turn_id: Option<String>,
    pub current_turn_request_id: Option<u64>,
    pub pending_request_id: Option<Json>,
    pub questions: Vec<Json>,
    pub answers: Vec<Json>,
    pub record: TurnRecord,
    pub usage: Option<Json>,
    pub completed: Option<Json>,
    pub warnings: Vec<Json>,
    pub errors: Vec<Json>,
}

pub struct RunStateV {
    pub run_id: Seq<char>,
    pub thread_id: Seq<char>,
    pub thread_model: Seq<char>,
    pub approval_policy: Seq<char>,
    pub codex_home: Option<Seq<char>>,
    pub thread_path: Option<Seq<char>>,
    pub log_path: Option<Seq<char>>,
    pub goal: Option<JsonV>,
    pub status: RunStatus,
    pub turn_id: Option<Seq<char>>,
    pub current_turn_request_id: Option<u64>,
    pub pending_request_id: Option<JsonV>,
    pub questions: Seq<JsonV>,
    pub answers: Seq<JsonV>,
    pub record: TurnRecordV,
    pub usage: Option<JsonV>,
    pub completed: Option<JsonV>,
    pub warnings: Seq<JsonV>,
    pub errors: Seq<JsonV>,
}

/// Whether the pump goes on reading or the run pauses.
#[derive(Debug, Clone, Copy, PartialEq, Eq, Structural)]
pub enum Pump {
    Continue,
    Pause,
}

/// How one message changes a daemon run while its turn is pumped, and whether the run pauses:
/// - the response to `turn/start`: an error fails the run and pauses; otherwise the turn id is
///   kept;
/// - `item/tool/requestUserInput`: the run waits for an answer to that request (pause);
/// - `turn/completed` completes the run and clears the request ids (pause); `error` fails it
///   (pause); items, deltas, usage and warnings are recorded; other notifications are kept as
///   items.
pub open spec fn run_step(s: RunStateV, turn_request: u64, m: JsonV) -> (RunStateV, Pump) {
    if answers_request(m, turn_request) {
        match jget(m, "error"@) {
            Some(e) => (RunStateV { status: RunStatus::Failed, errors: s.errors.push(e), ..s }, Pump::Pause),
            None => (
                match jstr(jpath(m, seq!["result"@, "turn"@, "id"@])) {
                    Some(t) => RunStateV { turn_id: Some(t), ..s },
                    None => s,
                },
                Pump::Continue,
            ),
        }
    } else if method_of(m) == Some("item/tool/requestUserInput"@) {
        (
            RunStateV {
                status: RunStatus::NeedsInput,
                pending_request_id: jget(m, "id"@),
                questions: match jarray(jpath(m, seq!["params"@, "questions"@])) {
                    Some(q) => q,
                    None => Seq::empty(),
                },
                ..s
            },
            Pump::Pause,
        )
    } else {
        match method_of(m) {
            Some(meth) => if meth == "item/completed"@ {
                (RunStateV { record: collect_item_effect(s.record, m), ..s }, Pump::Continue)
            } else if meth == "item/agentMessage/delta"@ {
                (RunStateV { record: delta_effect(s.record, m), ..s }, Pump::Continue)
            } else if meth == "thread/tokenUsage/updated"@ {
                (RunStateV { usage: Some(or_null(jget(m, "params"@))), ..s }, Pump::Continue)
            } else if meth == "turn/completed"@ {
                (
                    RunStateV {
                        status: RunStatus::Completed,
                        completed: Some(or_null(jget(m, "params"@))),
                        pending_request_id: None,
                        current_turn_request_id: None,
                        ..s
                    },
                    Pump::Pause,
                )
            } else if meth == "error"@ {
                (RunStateV { status: RunStatus::Failed, errors: s.errors.push(m), ..s }, Pump::Pause)
            } else if meth == "warning"@ || meth == "guardianWarning"@ {
                (RunStateV { warnings: s.warnings.push(m), ..s }, Pump::Continue)
            } else {
                (
                    RunStateV { record: TurnRecordV { items: s.record.items.push(m), ..s.record }, ..s },
                    Pump::Continue,
                )
            },
            None => (s, Pump::Continue),
        }
    }
}

/// The snapshot of a run; `ok` unless it failed.
pub open spec fn snapshot_view(s: RunStateV) -> JsonV {
    JsonV::Object(
        seq![
            ("ok"@, JsonV::Bool(s.status != RunStatus::Failed)),
            ("status"@, jtext(status_text(s.status))),
            ("run_id"@, jtext(s.run_id)),
            ("thread_id"@, jtext(s.thread_id)),
            ("turn_id"@, str_or_null(s.turn_id)),
            ("codex_home"@, str_or_null(s.codex_home)),
            ("thread_path"@, str_or_null(s.thread_path)),
            ("resume_command"@, jtext(resume_command_text(s.codex_home, s.thread_id))),
            ("pending_request_id"@, opt_or_null(s.pending_request_id)),
            ("questions"@, JsonV::Array(s.questions)),
            ("answers"@, JsonV::Array(s.answers)),
            ("goal"@, opt_or_null(s.goal)),
            ("plans"@, str_array(s.record.plans)),
            ("agent_messages"@, str_array(s.record.agent_messages)),
            ("usage"@, opt_or_null(s.usage)),
            ("completed"@, opt_or_null(s.completed)),
            ("warnings"@, JsonV::Array(s.warnings)),
            ("errors"@, JsonV::Array(s.errors)),
            ("items"@, JsonV::Array(s.record.items)),
            ("log_path"@, str_or_null(s.log_path)),
        ],
    )
}

/// The state once a structured answer is taken: no question pending, the answer recorded and
/// the questions cleared.
pub open spec fn answer_taken_view(s: RunStateV, answer: JsonV) -> RunStateV {
    RunStateV { pending_request_id: None, answers: s.answers.push(answer), questions: Seq::empty(), ..s }
}

/// The state once the answer is sent: running again, its turn request given back for pumping.
pub open spec fn answer_sent_view(s: RunStateV) -> RunStateV {
    RunStateV { status: RunStatus::Running, current_turn_request_id: None, ..s }
}

/// A structured answer taken and sent.
pub open spec fn answered_view(s: RunStateV, answer: JsonV) -> RunStateV {
    answer_sent_view(answer_taken_view(s, answer))
}

/// The state for a new turn: running, with nothing recorded.
pub open spec fn reset_view(s: RunStateV) -> RunStateV {
    RunStateV {
        status: RunStatus::Running,
        turn_id: None,
        pending_request_id: None,
        questions: Seq::empty(),
        answers: Seq::empty(),
        record: empty_record(),
        usage: None,
        completed: None,
        warnings: Seq::empty(),
        errors: Seq::empty(),
        ..s
    }
}

fn push_json(v: &mut Vec<Json>, x: Json)
    ensures
        jsons(final(v)@) == jsons(old(v)@).push(x@),
{
    let ghost xv = x@;
    v.push(x);
    assert(jsons(v@) =~= jsons(old(v)@).push(xv));
}

fn clear_json(v: &mut Vec<Json>)
    ensures
        jsons(final(v)@) == Seq::<JsonV>::empty(),
{
    v.clear();
    assert(jsons(v@) =~= Seq::<JsonV>::empty());
}

impl RunState {
    pub open spec fn model(&self) -> RunStateV {
        RunStateV {
            run_id: self.run_id@,
            thread_id: self.thread_id@,
            thread_model: self.thread_model@,
            approval_policy: self.approval_policy@,
            codex_home: opt_str(self.codex_home),
            thread_path: opt_str(self.thread_path),
            log_path: opt_str(self.log_path),
            goal: opt_view(self.goal),
            status: self.status,
            turn_id: opt_str(self.turn_id),
            current_turn_request_id: self.current_turn_request_id,
            pending_request_id: opt_view(self.pending_request_id),
            questions: jsons(self.questions@),
            answers: jsons(self.answers@),
            record: self.record.model(),
            usage: opt_view(self.usage),
            completed: opt_view(self.completed),
            warnings: jsons(self.warnings@),
            errors: jsons(self.errors@),
        }
    }

    /// A new run that is about to start its first turn.
    pub fn new(
        run_id: String,
        thread_id: String,
        thread_model: String,
        approval_policy: String,
        codex_home: Option<String>,
        thread_path: Option<String>,
        log_path: Option<String>,
        goal: Option<Json>,
    ) -> (r: RunState)
        ensures
            r.model() == (RunStateV {
                run_id: run_id@,
                thread_id: thread_id@,
                thread_model: thread_model@,
                approval_policy: approval_policy@,
                codex_home: opt_str(codex_home),
                thread_path: opt_str(thread_path),
                log_path: opt_str(log_path),
                goal: opt_view(goal),
                status: RunStatus::Running,
                turn_id: None,
                current_turn_request_id: None,
                pending_request_id: None,
                questions: Seq::empty(),
                answers: Seq::empty(),
                record: empty_record(),
                usage: None,
                completed: None,
                warnings: Seq::empty(),
                errors: Seq::empty(),
            }),
    {
        let r = RunState {
            run_id,
            thread_id,
            thread_model,
            approval_policy,
            codex_home,
            thread_path,
            log_path,
            goal,
            status: RunStatus::Running,
            turn_id: None,
            current_turn_request_id: None,
            pending_request_id: None,
            questions: Vec::new(),
            answers: Vec::new(),
            record: TurnRecord::new(),
            usage: None,
            completed: None,
            warnings: Vec::new(),
            errors: Vec::new(),
        };
        assert(r.model().questions =~= Seq::<JsonV>::empty());
        assert(r.model().answers =~= Seq::<JsonV>::empty());
        assert(r.model().warnings =~= Seq::<JsonV>::empty());
        assert(r.model().errors =~= Seq::<JsonV>::empty());
        r
    }

    /// Starts pumping the turn whose `turn/start` request has id `turn_request`.
    pub fn begin_pump(&mut self, turn_request: u64)
        ensures
            final(self).model() == (RunStateV {
                current_turn_request_id: Some(turn_request),
                ..old(self).model()
            }),
    {
        self.current_turn_request_id = Some(turn_request);
    }

    /// Takes one message of the turn into account.
    pub fn on_message(&mut self, turn_request: u64, message: &Json) -> (r: Pump)
        ensures
            (final(self).model(), r) == run_step(old(self).model(), turn_request, message@),
    {
        if is_response_id(message, turn_request) {
            if let Some(e) = message.get("error") {
                self.status = RunStatus::Failed;
                push_json(&mut self.errors, e.deep_clone());
                return Pump::Pause;
            }
            let path = ["result", "turn", "id"];
            assert(path@.map_values(|k: &str| k@) =~= seq!["result"@, "turn"@, "id"@]);
            if let Some(t) = message.path(&path) {
                if let Some(s) = t.as_str() {
                    self.turn_id = Some(owned(s));
                }
            }
            return Pump::Continue;
        }
        match method_exec(message) {
            Some(meth) => {
                if str_eq(meth, "item/tool/requestUserInput") {
                    self.status = RunStatus::NeedsInput;
                    self.pending_request_id = match message.get("id") {
                        Some(i) => Some(i.deep_clone()),
                        None => None,
                    };
                    let path = ["params", "questions"];
                    assert(path@.map_values(|k: &str| k@) =~= seq!["params"@, "questions"@]);
                    let qs: Vec<Json> = match message.path(&path) {
                        Some(q) => match q.as_array() {
                            Some(items) => match json_array(items) {
                                Json::Array(v) => {
                                    proof { crate::json::lemma_view_array(v); }
                                    v
                                },
                                _ => Vec::new(),
                            },
                            None => Vec::new(),
                        },
                        None => Vec::new(),
                    };
                    assert(jsons(Seq::<Json>::empty()) =~= Seq::<JsonV>::empty());
                    self.questions = qs;
                    assert(jsons(self.questions@) == match jarray(jpath(message@, seq!["params"@, "questions"@])) {
                        Some(q) => q,
                        None => Seq::<JsonV>::empty(),
                    });
                    return Pump::Pause;
                }
                if str_eq(meth, "item/completed") {
                    self.record.collect_item(message);
                    Pump::Continue
                } else if str_eq(meth, "item/agentMessage/delta") {
                    self.record.collect_delta(message);
                    Pump::Continue
                } else if str_eq(meth, "thread/tokenUsage/updated") {
                    self.usage = Some(params_or_null(message));
                    Pump::Continue
                } else if str_eq(meth, "turn/completed") {
                    self.status = RunStatus::Completed;
                    self.completed = Some(params_or_null(message));
                    self.pending_request_id = None;
                    self.current_turn_request_id = None;
                    Pump::Pause
                } else if str_eq(meth, "error") {
                    self.status = RunStatus::Failed;
                    push_json(&mut self.errors, message.deep_clone());
                    Pump::Pause
                } else if str_eq(meth, "warning") || str_eq(meth, "guardianWarning") {
                    push_json(&mut self.warnings, message.deep_clone());
                    Pump::Continue
                } else {
                    let ghost before = self.record.model();
                    let ghost mv = message@;
                    self.record.items.push(message.deep_clone());
                    assert(self.record.model().items =~= before.items.push(mv));
                    Pump::Continue
                }
            },
            None => Pump::Continue,
        }
    }

    /// Clears what the last turn left, before a new turn.
    pub fn reset_turn_fields(&mut self)
        ensures
            final(self).model() == reset_view(old(self).model()),
    {
        self.status = RunStatus::Running;
        self.turn_id = None;
        self.pending_request_id = None;
        clear_json(&mut self.questions);
        clear_json(&mut self.answers);
        self.record.clear();
        self.usage = None;
        self.completed = None;
        clear_json(&mut self.warnings);
        clear_json(&mut self.errors);
    }

    /// The snapshot reported for the run.
    pub fn snapshot(&self) -> (r: Json)
        ensures
            r@ == snapshot_view(self.model()),
    {
        let ghost m = self.model();
        let mut b = ObjectBuilder::new();
        b.add("ok", Json::Bool(self.status != RunStatus::Failed));
        b.add("status", Json::text(self.status.name()));
        b.add("run_id", Json::Str(copy_string(&self.run_id)));
        b.add("thread_id", Json::Str(copy_string(&self.thread_id)));
        b.add("turn_id", Json::opt_text(&self.turn_id));
        b.add("codex_home", Json::opt_text(&self.codex_home));
        b.add("thread_path", Json::opt_text(&self.thread_path));
        let home: Option<&str> = match &self.codex_home {
            Some(h) => Some(h.as_str()),
            None => None,
        };
        b.add("resume_command", Json::Str(resume_command(home, self.thread_id.as_str())));
        b.add("pending_request_id", opt_json(&self.pending_request_id));
        b.add("questions", json_array(&self.questions));
        b.add("answers", json_array(&self.answers));
        b.add("goal", opt_json(&self.goal));
        b.add("plans", string_array(&self.record.plans));
        b.add("agent_messages", string_array(&self.record.agent_messages));
        b.add("usage", opt_json(&self.usage));
        b.add("completed", opt_json(&self.completed));
        b.add("warnings", json_array(&self.warnings));
        b.add("errors", json_array(&self.errors));
        b.add("items", json_array(&self.record.items));
        b.add("log_path", Json::opt_text(&self.log_path));
        assert(b.model() =~= snapshot_view(m)->Object_0);
        b.build()
    }

    /// Takes the answer of a `session_answer` request: the pending request is taken first,
    /// then the answer; the answer is recorded and the questions cleared. Returns the request
    /// id to answer and the answer to send.
    pub fn begin_answer(&mut self, request: &Json) -> (r: Result<(Json, Json), SessionError>)
        ensures
            match old(self).model().pending_request_id {
                None => r matches Err(SessionError::NoPendingQuestion) && final(self).model()
                    == old(self).model(),
                Some(p) => match jget(request@, "answer"@) {
                    None => r matches Err(SessionError::MissingAnswer) && final(self).model() == (
                    RunStateV { pending_request_id: None, ..old(self).model() }),
                    Some(a) => r matches Ok((id, ans)) && id@ == p && ans@ == a
                        && final(self).model() == answer_taken_view(old(self).model(), a),
                },
            },
    {
        let request_id = match self.pending_request_id.take() {
            Some(p) => p,
            None => {
                return Err(SessionError::NoPendingQuestion);
            },
        };
        let answer = match request.get("answer") {
            Some(a) => a.deep_clone(),
            None => {
                return Err(SessionError::MissingAnswer);
            },
        };
        push_json(&mut self.answers, answer.deep_clone());
        clear_json(&mut self.questions);
        Ok((request_id, answer))
    }

    /// Once the answer is sent the run is running again; returns the `turn/start` request id to
    /// pump (0 when none is known).
    pub fn answer_sent(&mut self) -> (r: u64)
        ensures
            r == match old(self).model().current_turn_request_id {
                Some(t) => t,
                None => 0,
            },
            final(self).model() == answer_sent_view(old(self).model()),
    {
        self.status = RunStatus::Running;
        match self.current_turn_request_id.take() {
            Some(t) => t,
            None => 0,
        }
    }

    /// Takes a `session_send` request: refused while a structured answer is pending or when it
    /// holds no prompt; then the model is switched when one is given, the turn fields are reset,
    /// and the `turn/start` params are returned (refused when it holds no effort).
    pub fn begin_send(&mut self, request: &Json) -> (r: Result<Json, SessionError>)
        ensures
            old(self).model().pending_request_id is Some ==> (r matches Err(
                SessionError::PendingQuestion,
            ) && final(self).model() == old(self).model()),
            old(self).model().pending_request_id is None ==> match jstr(jget(request@, "prompt"@)) {
                None => final(self).model() == old(self).model() && (r matches Err(
                    SessionError::MissingField(k),
                ) && k@ == "prompt"@),
                Some(prompt) => {
                    let switched = match jstr(jget(request@, "model"@)) {
                        Some(m) => RunStateV { thread_model: m, ..old(self).model() },
                        None => old(self).model(),
                    };
                    &&& final(self).model() == reset_view(switched)
                    &&& match jstr(jget(request@, "effort"@)) {
                        None => r matches Err(SessionError::MissingField(k)) && k@ == "effort"@,
                        Some(effort) => r matches Ok(p) && p@ == turn_start_view(
                            switched.thread_id,
                            prompt,
                            switched.approval_policy,
                            switched.thread_model,
                            effort,
                        ),
                    }
                },
            },
    {
        if self.pending_request_id.is_some() {
            return Err(SessionError::PendingQuestion);
        }
        let prompt = string_at(request, "prompt")?;
        if let Some(m) = request.get("model") {
            if let Some(s) = m.as_str() {
                self.thread_model = owned(s);
            }
        }
        self.reset_turn_fields();
        let effort = string_at(request, "effort")?;
        Ok(
            turn_start_params(
                self.thread_id.as_str(),
                prompt.as_str(),
                self.approval_policy.as_str(),
                self.thread_model.as_str(),
                effort.as_str(),
            ),
        )
    }
}

} // verus!
