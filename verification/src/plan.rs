use vstd::prelude::*;
use vstd::string::*;

use crate::json::{
    Json, JsonV, ObjectBuilder, jget, jpath, json_array, jsons, jstr, opt_json, opt_or_null,
    opt_str, opt_view, or_null, str_array, str_or_null, string_array, strs,
};
use crate::requests::jtext;
use crate::text::{copy_string, owned, str_eq};
use crate::turn::{
    RunStatus, TurnRecord, TurnRecordV, collect_item_effect, delta_effect, empty_record,
    method_exec, method_of, params_or_null, status_text,
};
use crate::util::{answers_request, is_response_id, resume_command, resume_command_text};

verus! {

/// The state of a one-shot Plan-mode turn (`plan`).
#[derive(Debug)]
pub struct PlanRun {
    pub status: RunStatus,
    pub thread_id: String,
    pub turn_id: Option<String>,
    pub codex_home: Option<String>,
    pub thread_path: Option<String>,
    pub goal: Option<Json>,
    pub record: TurnRecord,
    pub questions: Vec<Json>,
    pub answers: Vec<Json>,
    pub needs_input: Option<Json>,
    pub usage: Option<Json>,
    pub completed: Option<Json>,
    pub warnings: Vec<Json>,
    pub errors: Vec<Json>,
    pub log_path: Option<String>,
}

pub struct PlanRunV {
    pub status: RunStatus,
    pub thread_id: Seq<char>,
    pub turn_id: Option<Seq<char>>,
    pub codex_home: Option<Seq<char>>,
    pub thread_path: Option<Seq<char>>,
    pub goal: Option<JsonV>,
    pub record: TurnRecordV,
    pub questions: Seq<JsonV>,
    pub answers: Seq<JsonV>,
    pub needs_input: Option<JsonV>,
    pub usage: Option<JsonV>,
    pub completed: Option<JsonV>,
    pub warnings: Seq<JsonV>,
    pub errors: Seq<JsonV>,
    pub log_path: Option<Seq<char>>,
}

/// What the loop does after a message.
#[derive(Debug)]
pub enum PlanStep {
    /// Wait for the next message.
    Continue,
    /// A structured question arrived; answer the request with this id.
    Question(Json),
    /// The turn is over (completed or failed).
    Finished,
}

pub enum PlanStepV {
    Continue,
    Question(JsonV),
    Finished,
}

impl PlanStep {
    pub open spec fn model(&self) -> PlanStepV {
        match self {
            PlanStep::Continue => PlanStepV::Continue,
            PlanStep::Question(j) => PlanStepV::Question(j@),
            PlanStep::Finished => PlanStepV::Finished,
        }
    }
}

/// What a `request_user_input` question is recorded as: its request id and its questions.
pub open spec fn question_entry(m: JsonV) -> JsonV {
    JsonV::Object(
        seq![
            ("request_id"@, or_null(jget(m, "id"@))),
            ("questions"@, match jpath(m, seq!["params"@, "questions"@]) {
                Some(q) => q,
                None => JsonV::Array(Seq::empty()),
            }),
        ],
    )
}

/// How one message changes a Plan-mode turn, and what the loop does next.
/// - The response to `turn/start`: an error fails the turn; otherwise its turn id is kept.
/// - `item/tool/requestUserInput`: the question is recorded and must be answered.
/// - `item/completed`, `item/agentMessage/delta`: recorded; `thread/tokenUsage/updated`: the
///   usage is kept; `turn/completed` completes the turn; `error`, `warning`,
///   `guardianWarning` are kept as warnings; anything else is ignored.
pub open spec fn plan_step(run: PlanRunV, turn_request: u64, m: JsonV) -> (PlanRunV, PlanStepV) {
    if answers_request(m, turn_request) {
        match jget(m, "error"@) {
            Some(e) => (
                PlanRunV { status: RunStatus::Failed, errors: run.errors.push(e), ..run },
                PlanStepV::Finished,
            ),
            None => (
                match jstr(jpath(m, seq!["result"@, "turn"@, "id"@])) {
                    Some(t) => PlanRunV { turn_id: Some(t), ..run },
                    None => run,
                },
                PlanStepV::Continue,
            ),
        }
    } else if method_of(m) == Some("item/tool/requestUserInput"@) {
        (
            PlanRunV { questions: run.questions.push(question_entry(m)), ..run },
            PlanStepV::Question(or_null(jget(m, "id"@))),
        )
    } else {
        match method_of(m) {
            Some(meth) => if meth == "item/completed"@ {
                (PlanRunV { record: collect_item_effect(run.record, m), ..run }, PlanStepV::Continue)
            } else if meth == "item/agentMessage/delta"@ {
                (PlanRunV { record: delta_effect(run.record, m), ..run }, PlanStepV::Continue)
            } else if meth == "thread/tokenUsage/updated"@ {
                (PlanRunV { usage: Some(or_null(jget(m, "params"@))), ..run }, PlanStepV::Continue)
            } else if meth == "turn/completed"@ {
                (
                    PlanRunV {
                        status: RunStatus::Completed,
                        completed: Some(or_null(jget(m, "params"@))),
                        ..run
                    },
                    PlanStepV::Finished,
                )
            } else if meth == "error"@ || meth == "warning"@ || meth == "guardianWarning"@ {
                (PlanRunV { warnings: run.warnings.push(m), ..run }, PlanStepV::Continue)
            } else {
                (run, PlanStepV::Continue)
            },
            None => (run, PlanStepV::Continue),
        }
    }
}

/// The report of a Plan-mode turn; `ok` exactly when it completed.
pub open spec fn plan_report(run: PlanRunV) -> JsonV {
    JsonV::Object(
        seq![
            ("ok"@, JsonV::Bool(run.status == RunStatus::Completed)),
            ("status"@, jtext(status_text(run.status))),
            ("thread_id"@, jtext(run.thread_id)),
            ("turn_id"@, str_or_null(run.turn_id)),
            ("codex_home"@, str_or_null(run.codex_home)),
            ("thread_path"@, str_or_null(run.thread_path)),
            ("resume_command"@, jtext(resume_command_text(run.codex_home, run.thread_id))),
            ("goal"@, opt_or_null(run.goal)),
            ("plans"@, str_array(run.record.plans)),
            ("agent_messages"@, str_array(run.record.agent_messages)),
            ("questions"@, JsonV::Array(run.questions)),
            ("answers"@, JsonV::Array(run.answers)),
            ("needs_input"@, opt_or_null(run.needs_input)),
            ("usage"@, opt_or_null(run.usage)),
            ("completed"@, opt_or_null(run.completed)),
            ("warnings"@, JsonV::Array(run.warnings)),
            ("errors"@, JsonV::Array(run.errors)),
            ("items"@, JsonV::Array(run.record.items)),
            ("log_path"@, str_or_null(run.log_path)),
        ],
    )
}

impl PlanRun {
    pub open spec fn model(&self) -> PlanRunV {
        PlanRunV {
            status: self.status,
            thread_id: self.thread_id@,
            turn_id: opt_str(self.turn_id),
            codex_home: opt_str(self.codex_home),
            thread_path: opt_str(self.thread_path),
            goal: opt_view(self.goal),
            record: self.record.model(),
            questions: jsons(self.questions@),
            answers: jsons(self.answers@),
            needs_input: opt_view(self.needs_input),
            usage: opt_view(self.usage),
            completed: opt_view(self.completed),
            warnings: jsons(self.warnings@),
            errors: jsons(self.errors@),
            log_path: opt_str(self.log_path),
        }
    }

    /// A running turn on `thread_id` with nothing recorded yet.
    pub fn new(
        thread_id: &str,
        goal: Option<Json>,
        log_path: Option<String>,
        codex_home: Option<String>,
        thread_path: Option<String>,
    ) -> (r: PlanRun)
        ensures
            r.model() == (PlanRunV {
                status: RunStatus::Running,
                thread_id: thread_id@,
                turn_id: None,
                codex_home: opt_str(codex_home),
                thread_path: opt_str(thread_path),
                goal: opt_view(goal),
                record: empty_record(),
                questions: Seq::empty(),
                answers: Seq::empty(),
                needs_input: None,
                usage: None,
                completed: None,
                warnings: Seq::empty(),
                errors: Seq::empty(),
                log_path: opt_str(log_path),
            }),
    {
        let r = PlanRun {
            status: RunStatus::Running,
            thread_id: owned(thread_id),
            turn_id: None,
            codex_home,
            thread_path,
            goal,
            record: TurnRecord::new(),
            questions: Vec::new(),
            answers: Vec::new(),
            needs_input: None,
            usage: None,
            completed: None,
            warnings: Vec::new(),
            errors: Vec::new(),
            log_path,
        };
        assert(r.model().questions =~= Seq::<JsonV>::empty());
        assert(r.model().answers =~= Seq::<JsonV>::empty());
        assert(r.model().warnings =~= Seq::<JsonV>::empty());
        assert(r.model().errors =~= Seq::<JsonV>::empty());
        r
    }

    fn push_json(v: &mut Vec<Json>, x: Json)
        ensures
            jsons(final(v)@) == jsons(old(v)@).push(x@),
    {
        let ghost xv = x@;
        v.push(x);
        assert(jsons(v@) =~= jsons(old(v)@).push(xv));
    }

    fn question_entry_exec(message: &Json) -> (r: Json)
        ensures
            r@ == question_entry(message@),
    {
        let mut b = ObjectBuilder::new();
        b.add("request_id", Json::cloned_or_null(message.get("id")));
        let path = ["params", "questions"];
        assert(path@.map_values(|k: &str| k@) =~= seq!["params"@, "questions"@]);
        let qs = match message.path(&path) {
            Some(q) => q.deep_clone(),
            None => {
                let empty: Vec<Json> = Vec::new();
                proof {
                    crate::json::lemma_view_array(empty);
                    assert(empty@.map_values(|x: Json| x@) =~= Seq::<JsonV>::empty());
                }
                Json::Array(empty)
            },
        };
        let ghost qv = qs@;
        b.add("questions", qs);
        assert(b.model() =~= question_entry(message@)->Object_0);
        b.build()
    }

    /// Takes one message of the turn into account.
    pub fn on_message(&mut self, turn_request: u64, message: &Json) -> (r: PlanStep)
        ensures
            (final(self).model(), r.model()) == plan_step(old(self).model(), turn_request, message@),
    {
        if is_response_id(message, turn_request) {
            if let Some(e) = message.get("error") {
                self.status = RunStatus::Failed;
                Self::push_json(&mut self.errors, e.deep_clone());
                return PlanStep::Finished;
            }
            let path = ["result", "turn", "id"];
            assert(path@.map_values(|k: &str| k@) =~= seq!["result"@, "turn"@, "id"@]);
            if let Some(t) = message.path(&path) {
                if let Some(s) = t.as_str() {
                    self.turn_id = Some(owned(s));
                }
            }
            return PlanStep::Continue;
        }
        let method = method_exec(message);
        match method {
            Some(meth) => {
                if str_eq(meth, "item/tool/requestUserInput") {
                    let entry = Self::question_entry_exec(message);
                    Self::push_json(&mut self.questions, entry);
                    return PlanStep::Question(Json::cloned_or_null(message.get("id")));
                }
                if str_eq(meth, "item/completed") {
                    self.record.collect_item(message);
                } else if str_eq(meth, "item/agentMessage/delta") {
                    self.record.collect_delta(message);
                } else if str_eq(meth, "thread/tokenUsage/updated") {
                    self.usage = Some(params_or_null(message));
                } else if str_eq(meth, "turn/completed") {
                    self.status = RunStatus::Completed;
                    self.completed = Some(params_or_null(message));
                    return PlanStep::Finished;
                } else if str_eq(meth, "error") || str_eq(meth, "warning") || str_eq(
                    meth,
                    "guardianWarning",
                ) {
                    Self::push_json(&mut self.warnings, message.deep_clone());
                }
                PlanStep::Continue
            },
            None => PlanStep::Continue,
        }
    }

    /// Records the answer sent for a structured question and hands it back for sending.
    pub fn record_answer(&mut self, answer: Json) -> (r: Json)
        ensures
            r@ == answer@,
            final(self).model() == (PlanRunV {
                answers: old(self).model().answers.push(answer@),
                ..old(self).model()
            }),
    {
        Self::push_json(&mut self.answers, answer.deep_clone());
        answer
    }

    /// Stops the turn to wait for input from outside.
    pub fn record_needs_input(&mut self, payload: Json)
        ensures
            final(self).model() == (PlanRunV {
                status: RunStatus::NeedsInput,
                needs_input: Some(payload@),
                ..old(self).model()
            }),
    {
        self.status = RunStatus::NeedsInput;
        self.needs_input = Some(payload);
    }

    /// The report of the turn.
    pub fn into_json(&self) -> (r: Json)
        ensures
            r@ == plan_report(self.model()),
    {
        let ghost m = self.model();
        let mut b = ObjectBuilder::new();
        b.add("ok", Json::Bool(self.status == RunStatus::Completed));
        b.add("status", Json::text(self.status.name()));
        b.add("thread_id", Json::Str(copy_string(&self.thread_id)));
        b.add("turn_id", Json::opt_text(&self.turn_id));
        b.add("codex_home", Json::opt_text(&self.codex_home));
        b.add("thread_path", Json::opt_text(&self.thread_path));
        let home: Option<&str> = match &self.codex_home {
            Some(h) => Some(h.as_str()),
            None => None,
        };
        b.add("resume_command", Json::Str(resume_command(home, self.thread_id.as_str())));
        b.add("goal", opt_json(&self.goal));
        b.add("plans", string_array(&self.record.plans));
        b.add("agent_messages", string_array(&self.record.agent_messages));
        b.add("questions", json_array(&self.questions));
        b.add("answers", json_array(&self.answers));
        b.add("needs_input", opt_json(&self.needs_input));
        b.add("usage", opt_json(&self.usage));
        b.add("completed", opt_json(&self.completed));
        b.add("warnings", json_array(&self.warnings));
        b.add("errors", json_array(&self.errors));
        b.add("items", json_array(&self.record.items));
        b.add("log_path", Json::opt_text(&self.log_path));
        assert(b.model() =~= plan_report(m)->Object_0);
        b.build()
    }
}

} // verus!
