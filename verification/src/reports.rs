use vstd::prelude::*;
use vstd::string::*;

use crate::json::{
    Json, JsonV, NumberV, ObjectBuilder, jarray, jget, jpath, jsons, jstr, lemma_view_array,
    lemma_view_object, members_view, opt_str, or_null, str_or_null,
};
use crate::requests::{jtext, juint};
use crate::settings::LogMode;
use crate::text::{owned, str_eq, trim, trimmed};
use crate::turn::item_type;
use crate::util::{payload_of, resume_command, resume_command_text, response_payload};

verus! {

/// Whether a response carries no `error`.
pub open spec fn no_error(response: JsonV) -> bool {
    jget(response, "error"@) is None
}

fn has_no_error(response: &Json) -> (r: bool)
    ensures
        r == no_error(response@),
{
    response.get("error").is_none()
}

fn member(value: &Json, key: &str) -> (r: Json)
    ensures
        r@ == or_null(jget(value@, key@)),
{
    value.member_or_null(key)
}

fn at_path(value: &Json, keys: &[&str]) -> (r: Json)
    ensures
        r@ == or_null(jpath(value@, keys@.map_values(|k: &str| k@))),
{
    match value.path(keys) {
        Some(v) => v.deep_clone(),
        None => Json::Null,
    }
}

// ---------------------------------------------------------------- log lines

/// The one-line summary of a message written in `summary` log mode.
pub open spec fn summary_view(v: JsonV) -> JsonV {
    let id = or_null(jget(v, "id"@));
    match jstr(jget(v, "method"@)) {
        Some(method) => if method == "item/tool/requestUserInput"@ {
            JsonV::Object(
                seq![
                    ("kind"@, jtext("request_user_input"@)),
                    ("id"@, id),
                    ("thread_id"@, or_null(jpath(v, seq!["params"@, "threadId"@]))),
                    ("turn_id"@, or_null(jpath(v, seq!["params"@, "turnId"@]))),
                    ("questions"@, juint(
                        match jarray(jpath(v, seq!["params"@, "questions"@])) {
                            Some(q) => q.len() as u64,
                            None => 0,
                        },
                    )),
                ],
            )
        } else {
            JsonV::Object(
                seq![("kind"@, jtext("method"@)), ("id"@, id), ("method"@, jtext(method))],
            )
        },
        None => match jget(v, "result"@) {
            Some(result) => JsonV::Object(
                seq![
                    ("kind"@, jtext("response"@)),
                    ("id"@, id),
                    ("result_keys"@, match result {
                        JsonV::Object(m) => JsonV::Array(m.map_values(|e: (Seq<char>, JsonV)| jtext(e.0))),
                        _ => JsonV::Null,
                    }),
                ],
            ),
            None => match jget(v, "error"@) {
                Some(e) => JsonV::Object(
                    seq![("kind"@, jtext("error"@)), ("id"@, id), ("error"@, e)],
                ),
                None => v,
            },
        },
    }
}

fn keys_array(members: &Vec<(String, Json)>) -> (r: Json)
    ensures
        r@ == JsonV::Array(
            members@.map_values(|e: (String, Json)| e.0@).map_values(|k: Seq<char>| jtext(k)),
        ),
{
    let mut out: Vec<Json> = Vec::new();
    let mut i: usize = 0;
    while i < members.len()
        invariant
            i <= members.len(),
            out@.len() == i,
            forall|k: int| 0 <= k < i ==> (#[trigger] out@[k])@ == jtext(members@[k].0@),
        decreases members.len() - i,
    {
        out.push(Json::text(members[i].0.as_str()));
        i = i + 1;
    }
    proof {
        lemma_view_array(out);
        assert(out@.map_values(|x: Json| x@) =~= members@.map_values(|e: (String, Json)| e.0@).map_values(
            |k: Seq<char>| jtext(k),
        ));
    }
    Json::Array(out)
}

/// The summary of a message: requests for user input, other methods, responses and errors are
/// reduced to their kind, id and a few fields; anything else is kept whole.
pub fn summarize(value: &Json) -> (r: Json)
    ensures
        r@ == summary_view(value@),
{
    let id = member(value, "id");
    let method = match value.get("method") {
        Some(m) => m.as_str(),
        None => None,
    };
    if let Some(method) = method {
        if str_eq(method, "item/tool/requestUserInput") {
            let p1 = ["params", "threadId"];
            let p2 = ["params", "turnId"];
            let p3 = ["params", "questions"];
            assert(p1@.map_values(|k: &str| k@) =~= seq!["params"@, "threadId"@]);
            assert(p2@.map_values(|k: &str| k@) =~= seq!["params"@, "turnId"@]);
            assert(p3@.map_values(|k: &str| k@) =~= seq!["params"@, "questions"@]);
            let count: u64 = match value.path(&p3) {
                Some(q) => match q.as_array() {
                    Some(items) => items.len() as u64,
                    None => 0,
                },
                None => 0,
            };
            let mut b = ObjectBuilder::new();
            b.add("kind", Json::text("request_user_input"));
            b.add("id", id);
            b.add("thread_id", at_path(value, &p1));
            b.add("turn_id", at_path(value, &p2));
            b.add("questions", Json::uint(count));
            proof {
                if let Some(JsonV::Array(q)) = jpath(value@, seq!["params"@, "questions"@]) {
                    assert(q.len() == count);
                }
            }
            assert(b.model() =~= summary_view(value@)->Object_0);
            return b.build();
        }
        let mut b = ObjectBuilder::new();
        b.add("kind", Json::text("method"));
        b.add("id", id);
        b.add("method", Json::text(method));
        assert(b.model() =~= summary_view(value@)->Object_0);
        return b.build();
    }
    match value.get("result") {
        Some(result) => {
            let keys = match result {
                Json::Object(m) => {
                    proof { lemma_view_object(*m); }
                    let k = keys_array(m);
                    assert(k@ == JsonV::Array(
                        members_view(m@).map_values(|e: (Seq<char>, JsonV)| jtext(e.0)),
                    )) by {
                        assert(members_view(m@).map_values(|e: (Seq<char>, JsonV)| jtext(e.0))
                            =~= m@.map_values(|e: (String, Json)| e.0@).map_values(
                            |k: Seq<char>| jtext(k),
                        ));
                    }
                    k
                },
                _ => Json::Null,
            };
            let mut b = ObjectBuilder::new();
            b.add("kind", Json::text("response"));
            b.add("id", id);
            b.add("result_keys", keys);
            assert(b.model() =~= summary_view(value@)->Object_0);
            b.build()
        },
        None => match value.get("error") {
            Some(e) => {
                let mut b = ObjectBuilder::new();
                b.add("kind", Json::text("error"));
                b.add("id", id);
                b.add("error", e.deep_clone());
                assert(b.model() =~= summary_view(value@)->Object_0);
                b.build()
            },
            None => value.deep_clone(),
        },
    }
}

/// The log line written for a message: nothing when logging is off, the whole message in
/// `full` mode, its summary in `summary` mode.
pub open spec fn log_entry_view(mode: LogMode, ts_ms: u64, direction: Seq<char>, value: JsonV) -> Option<JsonV> {
    match mode {
        LogMode::Off => None,
        LogMode::Full => Some(
            JsonV::Object(
                seq![("ts_ms"@, juint(ts_ms)), ("direction"@, jtext(direction)), ("message"@, value)],
            ),
        ),
        LogMode::Summary => Some(
            JsonV::Object(
                seq![
                    ("ts_ms"@, juint(ts_ms)),
                    ("direction"@, jtext(direction)),
                    ("summary"@, summary_view(value)),
                ],
            ),
        ),
    }
}

pub fn log_entry(mode: LogMode, ts_ms: u64, direction: &str, value: &Json) -> (r: Option<Json>)
    ensures
        opt_json_view(r) == log_entry_view(mode, ts_ms, direction@, value@),
{
    match mode {
        LogMode::Off => None,
        LogMode::Full => {
            let mut b = ObjectBuilder::new();
            b.add("ts_ms", Json::uint(ts_ms));
            b.add("direction", Json::text(direction));
            b.add("message", value.deep_clone());
            assert(b.model() =~= log_entry_view(mode, ts_ms, direction@, value@)->0->Object_0);
            Some(b.build())
        },
        LogMode::Summary => {
            let mut b = ObjectBuilder::new();
            b.add("ts_ms", Json::uint(ts_ms));
            b.add("direction", Json::text(direction));
            b.add("summary", summarize(value));
            assert(b.model() =~= log_entry_view(mode, ts_ms, direction@, value@)->0->Object_0);
            Some(b.build())
        },
    }
}

/// The view of an optional value.
pub open spec fn opt_json_view(v: Option<Json>) -> Option<JsonV> {
    match v {
        Some(x) => Some(x@),
        None => None,
    }
}

/// An app-server stderr line as logged: `{"line": line}`.
pub fn stderr_line(line: &str) -> (r: Json)
    ensures
        r@ == JsonV::Object(seq![("line"@, jtext(line@))]),
{
    let mut b = ObjectBuilder::new();
    b.add("line", Json::text(line));
    assert(b.model() =~= seq![("line"@, jtext(line@))]);
    b.build()
}

// ---------------------------------------------------------------- account, quota and models

/// The report of `account`.
pub open spec fn account_view(response: JsonV, codex_home: Option<Seq<char>>, log_path: Option<Seq<char>>) -> JsonV {
    JsonV::Object(
        seq![
            ("ok"@, JsonV::Bool(no_error(response))),
            ("account"@, or_null(jpath(response, seq!["result"@, "account"@]))),
            ("codex_home"@, str_or_null(codex_home)),
            ("log_path"@, str_or_null(log_path)),
            ("raw"@, response),
        ],
    )
}

pub fn account_report(response: Json, codex_home: &Option<String>, log_path: &Option<String>) -> (r: Json)
    ensures
        r@ == account_view(response@, opt_str(*codex_home), opt_str(*log_path)),
{
    let ghost rv = response@;
    let path = ["result", "account"];
    assert(path@.map_values(|k: &str| k@) =~= seq!["result"@, "account"@]);
    let mut b = ObjectBuilder::new();
    b.add("ok", Json::Bool(has_no_error(&response)));
    b.add("account", at_path(&response, &path));
    b.add("codex_home", Json::opt_text(codex_home));
    b.add("log_path", Json::opt_text(log_path));
    b.add("raw", response);
    assert(b.model() =~= account_view(rv, opt_str(*codex_home), opt_str(*log_path))->Object_0);
    b.build()
}

/// The report of `quota`.
pub open spec fn quota_view(response: JsonV, codex_home: Option<Seq<char>>, log_path: Option<Seq<char>>) -> JsonV {
    JsonV::Object(
        seq![
            ("ok"@, JsonV::Bool(no_error(response))),
            ("rate_limits"@, or_null(jpath(response, seq!["result"@, "rateLimits"@]))),
            ("codex_home"@, str_or_null(codex_home)),
            ("log_path"@, str_or_null(log_path)),
            ("raw"@, response),
        ],
    )
}

pub fn quota_report(response: Json, codex_home: &Option<String>, log_path: &Option<String>) -> (r: Json)
    ensures
        r@ == quota_view(response@, opt_str(*codex_home), opt_str(*log_path)),
{
    let ghost rv = response@;
    let path = ["result", "rateLimits"];
    assert(path@.map_values(|k: &str| k@) =~= seq!["result"@, "rateLimits"@]);
    let mut b = ObjectBuilder::new();
    b.add("ok", Json::Bool(has_no_error(&response)));
    b.add("rate_limits", at_path(&response, &path));
    b.add("codex_home", Json::opt_text(codex_home));
    b.add("log_path", Json::opt_text(log_path));
    b.add("raw", response);
    assert(b.model() =~= quota_view(rv, opt_str(*codex_home), opt_str(*log_path))->Object_0);
    b.build()
}

/// A member of a value, or the given default.
pub open spec fn member_or(v: JsonV, key: Seq<char>, default: JsonV) -> JsonV {
    match jget(v, key) {
        Some(x) => x,
        None => default,
    }
}

/// One model of `models`, with its fields renamed.
pub open spec fn model_entry_view(m: JsonV) -> JsonV {
    JsonV::Object(
        seq![
            ("id"@, member_or(m, "id"@, JsonV::Null)),
            ("model"@, member_or(m, "model"@, JsonV::Null)),
            ("display_name"@, member_or(m, "displayName"@, JsonV::Null)),
            ("description"@, member_or(m, "description"@, JsonV::Null)),
            ("is_default"@, member_or(m, "isDefault"@, JsonV::Bool(false))),
            ("hidden"@, member_or(m, "hidden"@, JsonV::Bool(false))),
            ("default_reasoning_effort"@, member_or(m, "defaultReasoningEffort"@, JsonV::Null)),
            ("supported_reasoning_efforts"@, member_or(
                m,
                "supportedReasoningEfforts"@,
                JsonV::Array(Seq::empty()),
            )),
            ("input_modalities"@, member_or(m, "inputModalities"@, JsonV::Array(Seq::empty()))),
            ("upgrade"@, member_or(m, "upgrade"@, JsonV::Null)),
        ],
    )
}

fn member_or_exec(v: &Json, key: &str, default: Json) -> (r: Json)
    ensures
        r@ == member_or(v@, key@, default@),
{
    match v.get(key) {
        Some(x) => x.deep_clone(),
        None => default,
    }
}

fn empty_array() -> (r: Json)
    ensures
        r@ == JsonV::Array(Seq::empty()),
{
    let v: Vec<Json> = Vec::new();
    proof {
        lemma_view_array(v);
        assert(v@.map_values(|x: Json| x@) =~= Seq::<JsonV>::empty());
    }
    Json::Array(v)
}

pub fn model_entry(m: &Json) -> (r: Json)
    ensures
        r@ == model_entry_view(m@),
{
    let mut b = ObjectBuilder::new();
    b.add("id", member_or_exec(m, "id", Json::Null));
    b.add("model", member_or_exec(m, "model", Json::Null));
    b.add("display_name", member_or_exec(m, "displayName", Json::Null));
    b.add("description", member_or_exec(m, "description", Json::Null));
    b.add("is_default", member_or_exec(m, "isDefault", Json::Bool(false)));
    b.add("hidden", member_or_exec(m, "hidden", Json::Bool(false)));
    b.add("default_reasoning_effort", member_or_exec(m, "defaultReasoningEffort", Json::Null));
    b.add("supported_reasoning_efforts", member_or_exec(m, "supportedReasoningEfforts", empty_array()));
    b.add("input_modalities", member_or_exec(m, "inputModalities", empty_array()));
    b.add("upgrade", member_or_exec(m, "upgrade", Json::Null));
    assert(b.model() =~= model_entry_view(m@)->Object_0);
    b.build()
}

/// The models listed in a `model/list` response (`result.data`, none when absent).
pub open spec fn listed_models(response: JsonV) -> Seq<JsonV> {
    match jarray(jpath(response, seq!["result"@, "data"@])) {
        Some(a) => a,
        None => Seq::empty(),
    }
}

/// The report of `models`.
pub open spec fn models_view(response: JsonV, codex_home: Option<Seq<char>>, log_path: Option<Seq<char>>) -> JsonV {
    JsonV::Object(
        seq![
            ("ok"@, JsonV::Bool(no_error(response))),
            ("models"@, JsonV::Array(listed_models(response).map_values(|m: JsonV| model_entry_view(m)))),
            ("codex_home"@, str_or_null(codex_home)),
            ("log_path"@, str_or_null(log_path)),
            ("raw"@, response),
        ],
    )
}

pub fn models_report(response: Json, codex_home: &Option<String>, log_path: &Option<String>) -> (r: Json)
    ensures
        r@ == models_view(response@, opt_str(*codex_home), opt_str(*log_path)),
{
    let ghost rv = response@;
    let path = ["result", "data"];
    assert(path@.map_values(|k: &str| k@) =~= seq!["result"@, "data"@]);
    let mut entries: Vec<Json> = Vec::new();
    match response.path(&path) {
        Some(d) => match d.as_array() {
            Some(items) => {
                let mut i: usize = 0;
                while i < items.len()
                    invariant
                        i <= items.len(),
                        entries@.len() == i,
                        forall|k: int| 0 <= k < i ==> (#[trigger] entries@[k])@ == model_entry_view(items@[k]@),
                    decreases items.len() - i,
                {
                    entries.push(model_entry(&items[i]));
                    i = i + 1;
                }
                assert(jsons(entries@) =~= listed_models(rv).map_values(|m: JsonV| model_entry_view(m)));
            },
            None => {
                assert(jsons(entries@) =~= listed_models(rv).map_values(|m: JsonV| model_entry_view(m)));
            },
        },
        None => {
            assert(jsons(entries@) =~= listed_models(rv).map_values(|m: JsonV| model_entry_view(m)));
        },
    }
    proof { lemma_view_array(entries); }
    let mut b = ObjectBuilder::new();
    b.add("ok", Json::Bool(has_no_error(&response)));
    b.add("models", Json::Array(entries));
    b.add("codex_home", Json::opt_text(codex_home));
    b.add("log_path", Json::opt_text(log_path));
    b.add("raw", response);
    assert(b.model() =~= models_view(rv, opt_str(*codex_home), opt_str(*log_path))->Object_0);
    b.build()
}

// ---------------------------------------------------------------- goals and doctor

/// The report of `goal set`: both responses, and how to resume the thread.
pub open spec fn goal_report_view(
    thread_id: Seq<char>,
    thread_path: Option<Seq<char>>,
    codex_home: Option<Seq<char>>,
    set: JsonV,
    get: JsonV,
    log_path: Option<Seq<char>>,
) -> JsonV {
    JsonV::Object(
        seq![
            ("ok"@, JsonV::Bool(no_error(set) && no_error(get))),
            ("thread_id"@, jtext(thread_id)),
            ("thread_path"@, str_or_null(thread_path)),
            ("codex_home"@, str_or_null(codex_home)),
            ("resume_command"@, jtext(resume_command_text(codex_home, thread_id))),
            ("set"@, payload_of(set)),
            ("get"@, payload_of(get)),
            ("log_path"@, str_or_null(log_path)),
        ],
    )
}

pub fn goal_report(
    thread_id: &str,
    thread_path: &Option<String>,
    codex_home: &Option<String>,
    set: Json,
    get: Json,
    log_path: &Option<String>,
) -> (r: Json)
    ensures
        r@ == goal_report_view(
            thread_id@,
            opt_str(*thread_path),
            opt_str(*codex_home),
            set@,
            get@,
            opt_str(*log_path),
        ),
{
    let ghost sv = set@;
    let ghost gv = get@;
    let ok = has_no_error(&set) && has_no_error(&get);
    let home: Option<&str> = match codex_home {
        Some(h) => Some(h.as_str()),
        None => None,
    };
    let mut b = ObjectBuilder::new();
    b.add("ok", Json::Bool(ok));
    b.add("thread_id", Json::text(thread_id));
    b.add("thread_path", Json::opt_text(thread_path));
    b.add("codex_home", Json::opt_text(codex_home));
    b.add("resume_command", Json::Str(resume_command(home, thread_id)));
    b.add("set", response_payload(set));
    b.add("get", response_payload(get));
    b.add("log_path", Json::opt_text(log_path));
    assert(b.model() =~= goal_report_view(
        thread_id@,
        opt_str(*thread_path),
        opt_str(*codex_home),
        sv,
        gv,
        opt_str(*log_path),
    )->Object_0);
    b.build()
}

/// An optional exit code: the number, or `null`.
pub open spec fn code_view(code: Option<i32>) -> JsonV {
    match code {
        Some(c) => if c >= 0 {
            JsonV::Number(NumberV::PosInt(c as u64))
        } else {
            JsonV::Number(NumberV::NegInt(c as i64))
        },
        None => JsonV::Null,
    }
}

fn code_json(code: Option<i32>) -> (r: Json)
    ensures
        r@ == code_view(code),
{
    match code {
        Some(c) => if c >= 0 {
            Json::uint(c as u64)
        } else {
            Json::Number(crate::json::JsonNumber::NegInt(c as i64))
        },
        None => Json::Null,
    }
}

/// The report of `doctor`: what `codex --version` printed, and whether the app-server listed
/// its collaboration modes.
pub open spec fn doctor_view(
    success: bool,
    code: Option<i32>,
    stdout: Seq<char>,
    stderr: Seq<char>,
    modes: JsonV,
    codex_home: Option<Seq<char>>,
    log_path: Option<Seq<char>>,
    latest_log_path: Option<Seq<char>>,
) -> JsonV {
    JsonV::Object(
        seq![
            ("ok"@, JsonV::Bool(success && no_error(modes))),
            ("kind"@, jtext("codex-app-cli-doctor"@)),
            ("codex"@, JsonV::Object(
                seq![
                    ("ok"@, JsonV::Bool(success)),
                    ("status"@, code_view(code)),
                    ("stdout"@, jtext(trimmed(stdout))),
                    ("stderr"@, jtext(trimmed(stderr))),
                ],
            )),
            ("app_server"@, JsonV::Object(
                seq![
                    ("initialized"@, JsonV::Bool(true)),
                    ("codex_home"@, str_or_null(codex_home)),
                    ("modes"@, payload_of(modes)),
                ],
            )),
            ("log_path"@, str_or_null(log_path)),
            ("latest_log_path"@, str_or_null(latest_log_path)),
        ],
    )
}

pub fn doctor_report(
    success: bool,
    code: Option<i32>,
    stdout: &str,
    stderr: &str,
    modes: Json,
    codex_home: &Option<String>,
    log_path: &Option<String>,
    latest_log_path: &Option<String>,
) -> (r: Json)
    ensures
        r@ == doctor_view(
            success,
            code,
            stdout@,
            stderr@,
            modes@,
            opt_str(*codex_home),
            opt_str(*log_path),
            opt_str(*latest_log_path),
        ),
{
    let ghost mv = modes@;
    let ok = success && has_no_error(&modes);
    let mut v = ObjectBuilder::new();
    v.add("ok", Json::Bool(success));
    v.add("status", code_json(code));
    v.add("stdout", Json::Str(trim(stdout)));
    v.add("stderr", Json::Str(trim(stderr)));
    assert(v.model() =~= seq![
        ("ok"@, JsonV::Bool(success)),
        ("status"@, code_view(code)),
        ("stdout"@, jtext(trimmed(stdout@))),
        ("stderr"@, jtext(trimmed(stderr@))),
    ]);
    let mut s = ObjectBuilder::new();
    s.add("initialized", Json::Bool(true));
    s.add("codex_home", Json::opt_text(codex_home));
    s.add("modes", response_payload(modes));
    assert(s.model() =~= seq![
        ("initialized"@, JsonV::Bool(true)),
        ("codex_home"@, str_or_null(opt_str(*codex_home))),
        ("modes"@, payload_of(mv)),
    ]);
    let mut b = ObjectBuilder::new();
    b.add("ok", Json::Bool(ok));
    b.add("kind", Json::text("codex-app-cli-doctor"));
    b.add("codex", v.build());
    b.add("app_server", s.build());
    b.add("log_path", Json::opt_text(log_path));
    b.add("latest_log_path", Json::opt_text(latest_log_path));
    assert(b.model() =~= doctor_view(
        success,
        code,
        stdout@,
        stderr@,
        mv,
        opt_str(*codex_home),
        opt_str(*log_path),
        opt_str(*latest_log_path),
    )->Object_0);
    b.build()
}

// ---------------------------------------------------------------- `read --compact`

/// The text of a thread item that `read --compact` keeps: the first content text of a user
/// message, the text of an agent message.
pub open spec fn item_text(item: JsonV) -> Option<Seq<char>> {
    let ty = item_type(item);
    if ty == "userMessage"@ {
        match jarray(jget(item, "content"@)) {
            Some(c) => if c.len() > 0 {
                jstr(jget(c[0], "text"@))
            } else {
                None
            },
            None => None,
        }
    } else if ty == "agentMessage"@ {
        jstr(jget(item, "text"@))
    } else {
        None
    }
}

/// One message of `read --compact`.
pub open spec fn message_view(turn_id: Seq<char>, ty: Seq<char>, text: Seq<char>) -> JsonV {
    JsonV::Object(
        seq![("turn_id"@, jtext(turn_id)), ("type"@, jtext(ty)), ("text"@, jtext(text))],
    )
}

/// The messages of a turn's items, in order.
pub open spec fn item_messages(turn_id: Seq<char>, items: Seq<JsonV>) -> Seq<JsonV>
    decreases items.len(),
{
    if items.len() == 0 {
        Seq::empty()
    } else {
        let rest = item_messages(turn_id, items.drop_last());
        match item_text(items.last()) {
            Some(t) => rest.push(message_view(turn_id, item_type(items.last()), t)),
            None => rest,
        }
    }
}

/// The id of a turn; empty when it has none.
pub open spec fn turn_id_of(turn: JsonV) -> Seq<char> {
    match jstr(jget(turn, "id"@)) {
        Some(t) => t,
        None => Seq::empty(),
    }
}

/// The items of a turn; none when it has no item list.
pub open spec fn turn_items(turn: JsonV) -> Seq<JsonV> {
    match jarray(jget(turn, "items"@)) {
        Some(a) => a,
        None => Seq::empty(),
    }
}

/// The messages of the turns, turn after turn.
pub open spec fn thread_messages(turns: Seq<JsonV>) -> Seq<JsonV>
    decreases turns.len(),
{
    if turns.len() == 0 {
        Seq::empty()
    } else {
        thread_messages(turns.drop_last()) + item_messages(turn_id_of(turns.last()), turn_items(turns.last()))
    }
}

/// The turns of a thread; none when it has no turn list.
pub open spec fn thread_turns(thread: JsonV) -> Seq<JsonV> {
    match jarray(jget(thread, "turns"@)) {
        Some(t) => t,
        None => Seq::empty(),
    }
}

/// The compact form of a `thread/read` response.
pub open spec fn compact_view(response: JsonV) -> JsonV {
    let thread = or_null(jpath(response, seq!["result"@, "thread"@]));
    JsonV::Object(
        seq![
            ("ok"@, JsonV::Bool(no_error(response))),
            ("thread_id"@, or_null(jget(thread, "id"@))),
            ("cwd"@, or_null(jget(thread, "cwd"@))),
            ("source"@, or_null(jget(thread, "source"@))),
            ("status"@, or_null(jget(thread, "status"@))),
            ("path"@, or_null(jget(thread, "path"@))),
            ("turn_count"@, juint(thread_turns(thread).len() as u64)),
            ("messages"@, JsonV::Array(thread_messages(thread_turns(thread)))),
        ],
    )
}

fn type_of(item: &Json) -> (r: &str)
    ensures
        r@ == item_type(item@),
{
    match item.get("type") {
        Some(t) => match t.as_str() {
            Some(s) => s,
            None => {
                proof { reveal_strlit(""); }
                ""
            },
        },
        None => {
            proof { reveal_strlit(""); }
            ""
        },
    }
}

fn item_text_exec(item: &Json) -> (r: Option<&str>)
    ensures
        match r {
            Some(t) => item_text(item@) == Some(t@),
            None => item_text(item@) is None,
        },
{
    let ty = type_of(item);
    if str_eq(ty, "userMessage") {
        match item.get("content") {
            Some(c) => match c.as_array() {
                Some(parts) => if parts.len() > 0 {
                    assert(parts@.map_values(|x: Json| x@)[0] == parts@[0]@);
                    match parts[0].get("text") {
                        Some(t) => t.as_str(),
                        None => None,
                    }
                } else {
                    None
                },
                None => None,
            },
            None => None,
        }
    } else if str_eq(ty, "agentMessage") {
        match item.get("text") {
            Some(t) => t.as_str(),
            None => None,
        }
    } else {
        None
    }
}

fn message_json(turn_id: &str, ty: &str, text: &str) -> (r: Json)
    ensures
        r@ == message_view(turn_id@, ty@, text@),
{
    let mut b = ObjectBuilder::new();
    b.add("turn_id", Json::text(turn_id));
    b.add("type", Json::text(ty));
    b.add("text", Json::text(text));
    assert(b.model() =~= message_view(turn_id@, ty@, text@)->Object_0);
    b.build()
}

fn list_at<'a>(value: &'a Json, key: &str, empty: &'a Vec<Json>) -> (r: &'a Vec<Json>)
    requires
        empty@.len() == 0,
    ensures
        jsons(r@) == match jarray(jget(value@, key@)) {
            Some(a) => a,
            None => Seq::empty(),
        },
{
    match value.get(key) {
        Some(v) => match v.as_array() {
            Some(a) => a,
            None => {
                assert(jsons(empty@) =~= Seq::<JsonV>::empty());
                empty
            },
        },
        None => {
            assert(jsons(empty@) =~= Seq::<JsonV>::empty());
            empty
        },
    }
}

/// `read --compact`: the thread's identity and the user and agent messages of its turns.
pub fn compact_thread_read(response: &Json) -> (r: Json)
    ensures
        r@ == compact_view(response@),
{
    let path = ["result", "thread"];
    assert(path@.map_values(|k: &str| k@) =~= seq!["result"@, "thread"@]);
    let thread = at_path(response, &path);
    let empty: Vec<Json> = Vec::new();
    let turns = list_at(&thread, "turns", &empty);
    let ghost tv = jsons(turns@);
    let mut msgs: Vec<Json> = Vec::new();
    let mut i: usize = 0;
    assert(tv.take(0) =~= Seq::<JsonV>::empty());
    while i < turns.len()
        invariant
            i <= turns.len(),
            tv == jsons(turns@),
            empty@.len() == 0,
            jsons(msgs@) == thread_messages(tv.take(i as int)),
        decreases turns.len() - i,
    {
        let turn = &turns[i];
        assert(tv[i as int] == turn@);
        let tid: &str = match turn.get("id") {
            Some(v) => match v.as_str() {
                Some(s) => s,
                None => {
                    proof { reveal_strlit(""); }
                    ""
                },
            },
            None => {
                proof { reveal_strlit(""); }
                ""
            },
        };
        assert(tid@ == turn_id_of(turn@));
        let items = list_at(turn, "items", &empty);
        let ghost iv = jsons(items@);
        let ghost prefix = thread_messages(tv.take(i as int));
        let mut j: usize = 0;
        assert(iv.take(0) =~= Seq::<JsonV>::empty());
        assert(prefix + item_messages(tid@, iv.take(0)) =~= prefix);
        while j < items.len()
            invariant
                j <= items.len(),
                iv == jsons(items@),
                jsons(msgs@) == prefix + item_messages(tid@, iv.take(j as int)),
            decreases items.len() - j,
        {
            let item = &items[j];
            assert(iv[j as int] == item@);
            assert(iv.take(j + 1).drop_last() =~= iv.take(j as int));
            let ghost before = jsons(msgs@);
            match item_text_exec(item) {
                Some(t) => {
                    let m = message_json(tid, type_of(item), t);
                    let ghost mv = m@;
                    msgs.push(m);
                    assert(jsons(msgs@) =~= before.push(mv));
                    assert(prefix + item_messages(tid@, iv.take(j + 1)) =~= (prefix + item_messages(
                        tid@,
                        iv.take(j as int),
                    )).push(mv));
                },
                None => {},
            }
            j = j + 1;
        }
        assert(iv.take(j as int) =~= iv);
        assert(tv.take(i + 1).drop_last() =~= tv.take(i as int));
        i = i + 1;
    }
    assert(tv.take(i as int) =~= tv);
    proof { lemma_view_array(msgs); }
    let mut b = ObjectBuilder::new();
    b.add("ok", Json::Bool(has_no_error(response)));
    b.add("thread_id", member(&thread, "id"));
    b.add("cwd", member(&thread, "cwd"));
    b.add("source", member(&thread, "source"));
    b.add("status", member(&thread, "status"));
    b.add("path", member(&thread, "path"));
    b.add("turn_count", Json::uint(turns.len() as u64));
    b.add("messages", Json::Array(msgs));
    assert(b.model() =~= compact_view(response@)->Object_0);
    b.build()
}

/// The line `plan --jsonl` prints for each message: `{"type": "event", "event": message}`.
pub fn event_line(message: &Json) -> (r: Json)
    ensures
        r@ == JsonV::Object(seq![("type"@, jtext("event"@)), ("event"@, message@)]),
{
    let mut b = ObjectBuilder::new();
    b.add("type", Json::text("event"));
    b.add("event", message.deep_clone());
    assert(b.model() =~= seq![("type"@, jtext("event"@)), ("event"@, message@)]);
    b.build()
}

/// The params of `thread/read` for `read`: the thread, with its turns unless only the metadata
/// is wanted.
pub fn thread_read_params(thread_id: &str, metadata_only: bool) -> (r: Json)
    ensures
        r@ == JsonV::Object(
            seq![("threadId"@, jtext(thread_id@)), ("includeTurns"@, JsonV::Bool(!metadata_only))],
        ),
{
    let mut b = ObjectBuilder::new();
    b.add("threadId", Json::text(thread_id));
    b.add("includeTurns", Json::Bool(!metadata_only));
    assert(b.model() =~= seq![
        ("threadId"@, jtext(thread_id@)),
        ("includeTurns"@, JsonV::Bool(!metadata_only)),
    ]);
    b.build()
}

} // verus!
