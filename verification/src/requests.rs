use vstd::prelude::*;
use vstd::string::*;

use crate::json::{
    Json, JsonV, NumberV, ObjectBuilder, jget, jpath, jsons, jstr, json_array, lemma_view_array,
    opt_str, str_or_null,
};
use crate::settings::EffectiveRuntime;
use crate::text::{copy_string, owned, push_str};

verus! {

/// An app-server exchange that went wrong.
#[derive(Debug)]
pub enum ProtocolError {
    /// `initialize` was answered with this error.
    InitializeFailed(Json),
    /// `thread/start` was answered with this error.
    ThreadStartFailed(Json),
    /// The `thread/start` response holds no `result.thread.id`.
    MissingThreadId,
}

/// What a protocol error is told as; `rendered` is the JSON text of the error response that
/// the error carries.
pub open spec fn protocol_error_text(e: ProtocolError, rendered: Seq<char>) -> Seq<char> {
    match e {
        ProtocolError::InitializeFailed(_) => "initialize failed: "@ + rendered,
        ProtocolError::ThreadStartFailed(_) => "thread/start failed: "@ + rendered,
        ProtocolError::MissingThreadId => "thread/start response missing result.thread.id"@,
    }
}

impl ProtocolError {
    /// The message of the error, given the JSON text of the error response it carries.
    pub fn message(&self, rendered: &str) -> (r: String)
        ensures
            r@ == protocol_error_text(*self, rendered@),
    {
        match self {
            ProtocolError::InitializeFailed(_) => {
                let mut out = owned("initialize failed: ");
                push_str(&mut out, rendered);
                out
            },
            ProtocolError::ThreadStartFailed(_) => {
                let mut out = owned("thread/start failed: ");
                push_str(&mut out, rendered);
                out
            },
            ProtocolError::MissingThreadId => owned("thread/start response missing result.thread.id"),
        }
    }
}

pub open spec fn jtext(s: Seq<char>) -> JsonV {
    JsonV::Str(s)
}

pub open spec fn juint(n: u64) -> JsonV {
    JsonV::Number(NumberV::PosInt(n))
}

/// A JSON-RPC request.
pub open spec fn request_view(id: u64, method: Seq<char>, params: JsonV) -> JsonV {
    JsonV::Object(seq![("id"@, juint(id)), ("method"@, jtext(method)), ("params"@, params)])
}

pub fn request_message(id: u64, method: &str, params: Json) -> (r: Json)
    ensures
        r@ == request_view(id, method@, params@),
{
    let mut b = ObjectBuilder::new();
    b.add("id", Json::uint(id));
    b.add("method", Json::text(method));
    let ghost pv = params@;
    b.add("params", params);
    assert(b.model() =~= seq![("id"@, juint(id)), ("method"@, jtext(method@)), ("params"@, pv)]);
    let r = b.build();
    r
}

/// A JSON-RPC response carrying a result.
pub fn response_message(id: Json, result: Json) -> (r: Json)
    ensures
        r@ == JsonV::Object(seq![("id"@, id@), ("result"@, result@)]),
{
    let mut b = ObjectBuilder::new();
    let ghost iv = id@;
    let ghost rv = result@;
    b.add("id", id);
    b.add("result", result);
    assert(b.model() =~= seq![("id"@, iv), ("result"@, rv)]);
    b.build()
}

/// A JSON-RPC notification, with params when there are some.
pub fn notification_message(method: &str, params: Option<Json>) -> (r: Json)
    ensures
        r@ == match params {
            Some(p) => JsonV::Object(seq![("method"@, jtext(method@)), ("params"@, p@)]),
            None => JsonV::Object(seq![("method"@, jtext(method@))]),
        },
{
    let mut b = ObjectBuilder::new();
    b.add("method", Json::text(method));
    match params {
        Some(p) => {
            let ghost pv = p@;
            b.add("params", p);
            assert(b.model() =~= seq![("method"@, jtext(method@)), ("params"@, pv)]);
        },
        None => {},
    }
    b.build()
}

/// The params of `initialize`: who the client is and what it can do.
pub open spec fn initialize_view(version: Seq<char>) -> JsonV {
    JsonV::Object(
        seq![
            ("clientInfo"@, JsonV::Object(
                seq![
                    ("name"@, jtext("codex-app-cli"@)),
                    ("title"@, jtext("codex-app CLI"@)),
                    ("version"@, jtext(version)),
                ],
            )),
            ("capabilities"@, JsonV::Object(
                seq![
                    ("experimentalApi"@, JsonV::Bool(true)),
                    ("optOutNotificationMethods"@, JsonV::Array(seq![jtext("fs/changed"@)])),
                ],
            )),
        ],
    )
}

pub fn initialize_params(version: &str) -> (r: Json)
    ensures
        r@ == initialize_view(version@),
{
    let mut info = ObjectBuilder::new();
    info.add("name", Json::text("codex-app-cli"));
    info.add("title", Json::text("codex-app CLI"));
    info.add("version", Json::text(version));
    let mut methods: Vec<Json> = Vec::new();
    methods.push(Json::text("fs/changed"));
    proof {
        lemma_view_array(methods);
        assert(methods@.map_values(|x: Json| x@) =~= seq![jtext("fs/changed"@)]);
    }
    assert(info.model() =~= seq![
        ("name"@, jtext("codex-app-cli"@)),
        ("title"@, jtext("codex-app CLI"@)),
        ("version"@, jtext(version@)),
    ]);
    let mut caps = ObjectBuilder::new();
    caps.add("experimentalApi", Json::Bool(true));
    caps.add("optOutNotificationMethods", Json::Array(methods));
    assert(caps.model() =~= seq![
        ("experimentalApi"@, JsonV::Bool(true)),
        ("optOutNotificationMethods"@, JsonV::Array(seq![jtext("fs/changed"@)])),
    ]);
    let mut b = ObjectBuilder::new();
    b.add("clientInfo", info.build());
    b.add("capabilities", caps.build());
    assert(b.model() =~= initialize_view(version@)->Object_0);
    b.build()
}

/// What the `initialize` response says: an error, or the Codex home it reports.
pub fn initialized_codex_home(response: &Json) -> (r: Result<Option<String>, ProtocolError>)
    ensures
        match jget(response@, "error"@) {
            Some(e) => r matches Err(ProtocolError::InitializeFailed(x)) && x@ == e,
            None => r matches Ok(h) && opt_str(h) == jstr(jpath(
                response@,
                seq!["result"@, "codexHome"@],
            )),
        },
{
    if let Some(e) = response.get("error") {
        return Err(ProtocolError::InitializeFailed(e.deep_clone()));
    }
    let path = ["result", "codexHome"];
    assert(path@.map_values(|k: &str| k@) =~= seq!["result"@, "codexHome"@]);
    match response.path(&path) {
        Some(v) => match v.as_str() {
            Some(s) => Ok(Some(owned(s))),
            None => Ok(None),
        },
        None => Ok(None),
    }
}

/// The params of `thread/start`.
pub open spec fn thread_start_view(
    cwd: Seq<char>,
    approval: Seq<char>,
    sandbox: Seq<char>,
    model: Option<Seq<char>>,
) -> JsonV {
    let base = seq![
        ("cwd"@, jtext(cwd)),
        ("approvalPolicy"@, jtext(approval)),
        ("sandbox"@, jtext(sandbox)),
        ("experimentalRawEvents"@, JsonV::Bool(false)),
        ("persistExtendedHistory"@, JsonV::Bool(true)),
    ];
    match model {
        Some(m) => JsonV::Object(base.push(("model"@, jtext(m)))),
        None => JsonV::Object(base),
    }
}

pub fn thread_start_params(runtime: &EffectiveRuntime, model: Option<&str>) -> (r: Json)
    ensures
        r@ == thread_start_view(
            runtime.cwd@,
            runtime.approval_policy@,
            runtime.sandbox@,
            match model {
                Some(m) => Some(m@),
                None => None,
            },
        ),
{
    let mut b = ObjectBuilder::new();
    b.add("cwd", Json::Str(copy_string(&runtime.cwd)));
    b.add("approvalPolicy", Json::Str(copy_string(&runtime.approval_policy)));
    b.add("sandbox", Json::Str(copy_string(&runtime.sandbox)));
    b.add("experimentalRawEvents", Json::Bool(false));
    b.add("persistExtendedHistory", Json::Bool(true));
    let ghost base = seq![
        ("cwd"@, jtext(runtime.cwd@)),
        ("approvalPolicy"@, jtext(runtime.approval_policy@)),
        ("sandbox"@, jtext(runtime.sandbox@)),
        ("experimentalRawEvents"@, JsonV::Bool(false)),
        ("persistExtendedHistory"@, JsonV::Bool(true)),
    ];
    assert(b.model() =~= base);
    if let Some(m) = model {
        b.add("model", Json::text(m));
    }
    b.build()
}

/// A thread that `thread/start` created: its id, model and rollout path.
#[derive(Debug)]
pub struct StartedThread {
    pub thread_id: String,
    pub model: Option<String>,
    pub path: Option<String>,
}

/// What a `thread/start` response says.
pub fn thread_started(response: &Json) -> (r: Result<StartedThread, ProtocolError>)
    ensures
        match jget(response@, "error"@) {
            Some(e) => r matches Err(ProtocolError::ThreadStartFailed(x)) && x@ == e,
            None => match jstr(jpath(response@, seq!["result"@, "thread"@, "id"@])) {
                None => r matches Err(ProtocolError::MissingThreadId),
                Some(id) => r matches Ok(t) && t.thread_id@ == id && opt_str(t.model) == jstr(
                    jpath(response@, seq!["result"@, "model"@]),
                ) && opt_str(t.path) == jstr(jpath(response@, seq!["result"@, "thread"@, "path"@])),
            },
        },
{
    if let Some(e) = response.get("error") {
        return Err(ProtocolError::ThreadStartFailed(e.deep_clone()));
    }
    let id_path = ["result", "thread", "id"];
    assert(id_path@.map_values(|k: &str| k@) =~= seq!["result"@, "thread"@, "id"@]);
    let thread_id = match response.path(&id_path) {
        Some(v) => match v.as_str() {
            Some(s) => owned(s),
            None => {
                return Err(ProtocolError::MissingThreadId);
            },
        },
        None => {
            return Err(ProtocolError::MissingThreadId);
        },
    };
    let model_path = ["result", "model"];
    assert(model_path@.map_values(|k: &str| k@) =~= seq!["result"@, "model"@]);
    let model = match response.path(&model_path) {
        Some(v) => match v.as_str() {
            Some(s) => Some(owned(s)),
            None => None,
        },
        None => None,
    };
    let thread_path = ["result", "thread", "path"];
    assert(thread_path@.map_values(|k: &str| k@) =~= seq!["result"@, "thread"@, "path"@]);
    let path = match response.path(&thread_path) {
        Some(v) => match v.as_str() {
            Some(s) => Some(owned(s)),
            None => None,
        },
        None => None,
    };
    Ok(StartedThread { thread_id, model, path })
}

/// `{"threadId": thread_id}`.
pub fn thread_params(thread_id: &str) -> (r: Json)
    ensures
        r@ == JsonV::Object(seq![("threadId"@, jtext(thread_id@))]),
{
    let mut b = ObjectBuilder::new();
    b.add("threadId", Json::text(thread_id));
    b.build()
}

/// The params of `thread/goal/set`: the thread and objective, then the status and the token
/// budget when given.
pub open spec fn goal_set_view(
    thread_id: Seq<char>,
    objective: Seq<char>,
    status: Option<Seq<char>>,
    token_budget: Option<u64>,
) -> JsonV {
    let base = seq![("threadId"@, jtext(thread_id)), ("objective"@, jtext(objective))];
    let with_status = match status {
        Some(s) => base.push(("status"@, jtext(s))),
        None => base,
    };
    JsonV::Object(
        match token_budget {
            Some(n) => with_status.push(("tokenBudget"@, juint(n))),
            None => with_status,
        },
    )
}

pub fn goal_set_params(
    thread_id: &str,
    objective: &str,
    status: Option<&str>,
    token_budget: Option<u64>,
) -> (r: Json)
    ensures
        r@ == goal_set_view(
            thread_id@,
            objective@,
            match status {
                Some(s) => Some(s@),
                None => None,
            },
            token_budget,
        ),
{
    let mut b = ObjectBuilder::new();
    b.add("threadId", Json::text(thread_id));
    b.add("objective", Json::text(objective));
    assert(b.model() =~= seq![("threadId"@, jtext(thread_id@)), ("objective"@, jtext(objective@))]);
    if let Some(s) = status {
        b.add("status", Json::text(s));
    }
    if let Some(n) = token_budget {
        b.add("tokenBudget", Json::uint(n));
    }
    b.build()
}

/// The params of `turn/start` for a Plan-mode turn.
pub open spec fn turn_start_view(
    thread_id: Seq<char>,
    prompt: Seq<char>,
    approval: Seq<char>,
    model: Seq<char>,
    effort: Seq<char>,
) -> JsonV {
    JsonV::Object(
        seq![
            ("threadId"@, jtext(thread_id)),
            ("input"@, JsonV::Array(
                seq![
                    JsonV::Object(
                        seq![
                            ("type"@, jtext("text"@)),
                            ("text"@, jtext(prompt)),
                            ("text_elements"@, JsonV::Array(Seq::empty())),
                        ],
                    ),
                ],
            )),
            ("approvalPolicy"@, jtext(approval)),
            ("collaborationMode"@, JsonV::Object(
                seq![
                    ("mode"@, jtext("plan"@)),
                    ("settings"@, JsonV::Object(
                        seq![
                            ("model"@, jtext(model)),
                            ("reasoning_effort"@, jtext(effort)),
                            ("developer_instructions"@, JsonV::Null),
                        ],
                    )),
                ],
            )),
        ],
    )
}

pub fn turn_start_params(
    thread_id: &str,
    prompt: &str,
    approval_policy: &str,
    model: &str,
    effort: &str,
) -> (r: Json)
    ensures
        r@ == turn_start_view(thread_id@, prompt@, approval_policy@, model@, effort@),
{
    let mut input_item = ObjectBuilder::new();
    input_item.add("type", Json::text("text"));
    input_item.add("text", Json::text(prompt));
    let no_elements: Vec<Json> = Vec::new();
    proof {
        lemma_view_array(no_elements);
        assert(no_elements@.map_values(|x: Json| x@) =~= Seq::<JsonV>::empty());
    }
    input_item.add("text_elements", Json::Array(no_elements));
    assert(input_item.model() =~= seq![
        ("type"@, jtext("text"@)),
        ("text"@, jtext(prompt@)),
        ("text_elements"@, JsonV::Array(Seq::empty())),
    ]);
    let item = input_item.build();
    let ghost iv = item@;
    let mut input: Vec<Json> = Vec::new();
    input.push(item);
    proof {
        lemma_view_array(input);
        assert(input@.map_values(|x: Json| x@) =~= seq![iv]);
    }
    let mut settings = ObjectBuilder::new();
    settings.add("model", Json::text(model));
    settings.add("reasoning_effort", Json::text(effort));
    settings.add("developer_instructions", Json::Null);
    assert(settings.model() =~= seq![
        ("model"@, jtext(model@)),
        ("reasoning_effort"@, jtext(effort@)),
        ("developer_instructions"@, JsonV::Null),
    ]);
    let mut mode = ObjectBuilder::new();
    mode.add("mode", Json::text("plan"));
    mode.add("settings", settings.build());
    let ghost sv = JsonV::Object(settings.model());
    assert(mode.model() =~= seq![("mode"@, jtext("plan"@)), ("settings"@, sv)]);
    let mut b = ObjectBuilder::new();
    b.add("threadId", Json::text(thread_id));
    b.add("input", Json::Array(input));
    b.add("approvalPolicy", Json::text(approval_policy));
    b.add("collaborationMode", mode.build());
    assert(b.model() =~= turn_start_view(thread_id@, prompt@, approval_policy@, model@, effort@)->Object_0);
    b.build()
}

/// The model for Plan-mode settings: the one the thread reported, else the one asked for,
/// else `gpt-5.5`.
pub open spec fn chosen_model(reported: Option<Seq<char>>, requested: Option<Seq<char>>) -> Seq<char> {
    match reported {
        Some(m) => m,
        None => match requested {
            Some(m) => m,
            None => "gpt-5.5"@,
        },
    }
}

pub fn choose_thread_model(reported: Option<String>, requested: Option<String>) -> (r: String)
    ensures
        r@ == chosen_model(opt_str(reported), opt_str(requested)),
{
    match reported {
        Some(m) => m,
        None => match requested {
            Some(m) => m,
            None => owned("gpt-5.5"),
        },
    }
}

/// What `call` returns: the response alone, or the response with the notifications seen
/// before it and the log path.
pub open spec fn call_result_view(
    message: JsonV,
    events: Seq<JsonV>,
    include_events: bool,
    log_path: Option<Seq<char>>,
) -> JsonV {
    if include_events {
        JsonV::Object(
            seq![
                ("response"@, message),
                ("events"@, JsonV::Array(events)),
                ("log_path"@, str_or_null(log_path)),
            ],
        )
    } else {
        message
    }
}

pub fn call_result(
    message: Json,
    events: &Vec<Json>,
    include_events: bool,
    log_path: &Option<String>,
) -> (r: Json)
    ensures
        r@ == call_result_view(message@, jsons(events@), include_events, opt_str(*log_path)),
{
    if include_events {
        let ghost mv = message@;
        let mut b = ObjectBuilder::new();
        b.add("response", message);
        b.add("events", json_array(events));
        b.add("log_path", Json::opt_text(log_path));
        assert(b.model() =~= seq![
            ("response"@, mv),
            ("events"@, JsonV::Array(jsons(events@))),
            ("log_path"@, str_or_null(opt_str(*log_path))),
        ]);
        b.build()
    } else {
        message
    }
}

} // verus!
