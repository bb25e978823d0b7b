use vstd::prelude::*;
use vstd::string::*;

use crate::cli::ViewArgs;
use crate::json::{Json, JsonV, ObjectBuilder, jarray, jget, jstr, opt_str, str_or_null};
use crate::requests::{jtext, juint};
use crate::text::{
    chars_of, find, first_occurrence, occurs_at, owned, push_str, replace_all, replaced,
    slice_chars, string_of,
};

verus! {

/// Why a session view could not be prepared.
#[derive(Debug)]
pub enum ViewError {
    /// Neither a file nor `--run-id`.
    NoTarget,
    /// The daemon answered without a `runs` list.
    NoRunsList,
    /// The daemon does not know the run.
    UnknownRun(String),
    /// The run has no local thread file yet.
    NoThreadPath(String),
    /// The session text could not be written as a JSON string.
    Encoding,
}

/// What a view error is told as.
pub open spec fn view_error_text(e: ViewError) -> Seq<char> {
    match e {
        ViewError::NoTarget => "view requires FILE or --run-id. Try `codexctl view --help`."@,
        ViewError::NoRunsList => "daemon did not return a runs list"@,
        ViewError::UnknownRun(id) => "unknown in-memory run id: "@ + id@
            + ". Run `codexctl session list` while the daemon is alive, or open the rollout JSONL file directly with `codexctl view <path>`."@,
        ViewError::NoThreadPath(id) => "run "@ + id@ + " has no local thread_path yet"@,
        ViewError::Encoding => "session text could not be written as JSON"@,
    }
}

impl ViewError {
    /// The message of the error.
    pub fn message(&self) -> (r: String)
        ensures
            r@ == view_error_text(*self),
    {
        match self {
            ViewError::NoTarget => owned("view requires FILE or --run-id. Try `codexctl view --help`."),
            ViewError::NoRunsList => owned("daemon did not return a runs list"),
            ViewError::UnknownRun(id) => {
                let mut out = owned("unknown in-memory run id: ");
                push_str(&mut out, id.as_str());
                push_str(
                    &mut out,
                    ". Run `codexctl session list` while the daemon is alive, or open the rollout JSONL file directly with `codexctl view <path>`.",
                );
                out
            },
            ViewError::NoThreadPath(id) => {
                let mut out = owned("run ");
                push_str(&mut out, id.as_str());
                push_str(&mut out, " has no local thread_path yet");
                out
            },
            ViewError::Encoding => owned("session text could not be written as JSON"),
        }
    }
}

/// What `view` shows: a rollout file, or the thread file of a daemon run.
#[derive(Debug)]
pub enum ViewTarget {
    File(String),
    Run(String),
}

/// The file given on the command line comes first, then `--run-id`.
pub fn view_target(args: &ViewArgs) -> (r: Result<ViewTarget, ViewError>)
    ensures
        match args.file {
            Some(f) => r matches Ok(ViewTarget::File(x)) && x@ == f@,
            None => match args.run_id {
                Some(id) => r matches Ok(ViewTarget::Run(x)) && x@ == id@,
                None => r matches Err(ViewError::NoTarget),
            },
        },
{
    match &args.file {
        Some(f) => Ok(ViewTarget::File(owned(f.as_str()))),
        None => match &args.run_id {
            Some(id) => Ok(ViewTarget::Run(owned(id.as_str()))),
            None => Err(ViewError::NoTarget),
        },
    }
}

/// A listed run has this run id.
pub open spec fn run_named(run: JsonV, run_id: Seq<char>) -> bool {
    jstr(jget(run, "run_id"@)) == Some(run_id)
}

/// The position of the first run with this run id.
pub open spec fn first_run_named(runs: Seq<JsonV>, run_id: Seq<char>) -> Option<int>
    decreases runs.len(),
{
    if runs.len() == 0 {
        None
    } else if run_named(runs[0], run_id) {
        Some(0)
    } else {
        match first_run_named(runs.drop_first(), run_id) {
            Some(i) => Some(i + 1),
            None => None,
        }
    }
}

proof fn lemma_first_run_named(runs: Seq<JsonV>, run_id: Seq<char>, i: int)
    requires
        0 <= i <= runs.len(),
        forall|k: int| 0 <= k < i ==> !run_named(#[trigger] runs[k], run_id),
        i < runs.len() ==> run_named(runs[i], run_id),
    ensures
        first_run_named(runs, run_id) == (if i < runs.len() { Some(i) } else { None::<int> }),
    decreases i,
{
    if i > 0 {
        let t = runs.drop_first();
        assert forall|k: int| 0 <= k < i - 1 implies !run_named(#[trigger] t[k], run_id) by {
            assert(t[k] == runs[k + 1]);
            assert(!run_named(runs[k + 1], run_id));
        }
        if i < runs.len() {
            assert(t[i - 1] == runs[i]);
        }
        lemma_first_run_named(t, run_id, i - 1);
        assert(!run_named(runs[0], run_id));
    }
}

pub open spec fn opt_str_ref(s: Option<&str>) -> Option<Seq<char>> {
    match s {
        Some(t) => Some(t@),
        None => None,
    }
}

/// The thread file of a run, looked up in the daemon's list of runs.
pub fn thread_path_for_run(response: &Json, run_id: &str) -> (r: Result<String, ViewError>)
    ensures
        match jarray(jget(response@, "runs"@)) {
            None => r matches Err(ViewError::NoRunsList),
            Some(runs) => match first_run_named(runs, run_id@) {
                None => r matches Err(ViewError::UnknownRun(x)) && x@ == run_id@,
                Some(i) => match jstr(jget(runs[i], "thread_path"@)) {
                    Some(p) => r matches Ok(x) && x@ == p,
                    None => r matches Err(ViewError::NoThreadPath(x)) && x@ == run_id@,
                },
            },
        },
{
    let runs = match response.get("runs") {
        Some(v) => match v.as_array() {
            Some(a) => a,
            None => {
                return Err(ViewError::NoRunsList);
            },
        },
        None => {
            return Err(ViewError::NoRunsList);
        },
    };
    let ghost rv = runs@.map_values(|x: Json| x@);
    assert(jarray(jget(response@, "runs"@)) == Some(rv));
    let mut i: usize = 0;
    while i < runs.len()
        invariant
            i <= runs.len(),
            rv == runs@.map_values(|x: Json| x@),
            jarray(jget(response@, "runs"@)) == Some(rv),
            forall|k: int| 0 <= k < i ==> !run_named(#[trigger] rv[k], run_id@),
        decreases runs.len() - i,
    {
        let run = &runs[i];
        assert(rv[i as int] == run@);
        let named = match run.get("run_id") {
            Some(v) => match v.as_str() {
                Some(s) => crate::text::str_eq(s, run_id),
                None => false,
            },
            None => false,
        };
        if named {
            assert(run_named(rv[i as int], run_id@));
            proof { lemma_first_run_named(rv, run_id@, i as int); }
            assert(first_run_named(rv, run_id@) == Some(i as int));
            let path = match run.get("thread_path") {
                Some(p) => p.as_str(),
                None => None,
            };
            assert(opt_str_ref(path) == jstr(jget(rv[i as int], "thread_path"@)));
            return match path {
                Some(s) => Ok(owned(s)),
                None => Err(ViewError::NoThreadPath(owned(run_id))),
            };
        }
        i = i + 1;
    }
    proof { lemma_first_run_named(rv, run_id@, i as int); }
    Err(ViewError::UnknownRun(owned(run_id)))
}

/// The Codex home of a rollout file under `<home>/sessions/`: the path before the first
/// `/sessions/`.
pub open spec fn codex_home_of_rollout(path: Seq<char>) -> Option<Seq<char>> {
    match first_occurrence(path, "/sessions/"@) {
        Some(i) => Some(path.take(i)),
        None => None,
    }
}

pub fn derive_codex_home_from_rollout_path(path: &str) -> (r: Option<String>)
    ensures
        opt_str(r) == codex_home_of_rollout(path@),
{
    let p = chars_of(path);
    let marker = chars_of("/sessions/");
    match find(p.as_slice(), marker.as_slice()) {
        Some(i) => {
            assert(occurs_at(p@, marker@, i as int));
            let head = slice_chars(p.as_slice(), 0, i);
            assert(head@ =~= p@.take(i as int));
            Some(string_of(head.as_slice()))
        },
        None => None,
    }
}

/// The session text handed to the viewer page: where it was read, for which run, and with
/// which Codex install.
#[derive(Debug)]
pub struct ViewerSource {
    pub kind: String,
    pub name: String,
    pub path: Option<String>,
    pub run_id: Option<String>,
    pub codex_bin: String,
    pub codex_home: Option<String>,
    pub text: String,
}

/// The viewer context passed to the page script.
pub open spec fn viewer_context_view(s: ViewerSource) -> JsonV {
    JsonV::Object(
        seq![
            ("name"@, jtext(s.name@)),
            ("sourcePath"@, str_or_null(opt_str(s.path))),
            ("runId"@, str_or_null(opt_str(s.run_id))),
            ("codexBin"@, jtext(s.codex_bin@)),
            ("codexHome"@, str_or_null(opt_str(s.codex_home))),
        ],
    )
}

pub fn viewer_context(source: &ViewerSource) -> (r: Json)
    ensures
        r@ == viewer_context_view(*source),
{
    let mut b = ObjectBuilder::new();
    b.add("name", Json::text(source.name.as_str()));
    b.add("sourcePath", Json::opt_text(&source.path));
    b.add("runId", Json::opt_text(&source.run_id));
    b.add("codexBin", Json::text(source.codex_bin.as_str()));
    b.add("codexHome", Json::opt_text(&source.codex_home));
    assert(b.model() =~= viewer_context_view(*source)->Object_0);
    b.build()
}

/// A lowercase hexadecimal digit.
pub open spec fn hex_digit(n: int) -> char {
    if n < 10 {
        ((n + '0' as int) as u32) as char
    } else {
        ((n - 10 + 'a' as int) as u32) as char
    }
}

/// How serde_json writes one character inside a string literal: `"` and `\` and the control
/// characters with a short escape are written `\"`, `\\`, `\b`, `\t`, `\n`, `\f`, `\r`;
/// other control characters below U+0020 as `\u00XX` in lowercase hexadecimal; every other
/// character as it is.
pub open spec fn json_char_escape(c: char) -> Seq<char> {
    if c == '"' {
        seq!['\\', '"']
    } else if c == '\\' {
        seq!['\\', '\\']
    } else if c == '\u{08}' {
        seq!['\\', 'b']
    } else if c == '\t' {
        seq!['\\', 't']
    } else if c == '\n' {
        seq!['\\', 'n']
    } else if c == '\u{0C}' {
        seq!['\\', 'f']
    } else if c == '\r' {
        seq!['\\', 'r']
    } else if (c as u32) < 0x20 {
        seq!['\\', 'u', '0', '0', hex_digit((c as int) / 16), hex_digit((c as int) % 16)]
    } else {
        seq![c]
    }
}

/// The characters of a string, each as serde_json writes it.
pub open spec fn json_escaped(s: Seq<char>) -> Seq<char>
    decreases s.len(),
{
    if s.len() == 0 {
        Seq::empty()
    } else {
        json_char_escape(s[0]) + json_escaped(s.drop_first())
    }
}

/// The JSON string literal that `serde_json::to_string` writes for a string: the escaped
/// characters between double quotes.
pub open spec fn json_quoted(s: Seq<char>) -> Seq<char> {
    seq!['"'] + json_escaped(s) + seq!['"']
}

/// `serde_json::to_string` on a `str`, trusted to succeed (it writes into a `Vec`, which never
/// fails) and to write the literal `json_quoted` describes: its escape table and its compact
/// formatter's character escapes.
#[verifier::external_body]
fn json_string_literal(s: &str) -> (r: Option<String>)
    ensures
        r is Some,
        r matches Some(x) ==> x@ == json_quoted(s@),
{
    serde_json::to_string(s).ok()
}

/// A JSON string literal made safe inside a `<script>` element: `</script` and `<!--` are
/// broken with a backslash.
pub open spec fn script_safe_text(literal: Seq<char>) -> Seq<char> {
    replaced(replaced(literal, "</script"@, "<\\/script"@), "<!--"@, "<\\!--"@)
}

pub fn script_safe(literal: &str) -> (r: String)
    ensures
        r@ == script_safe_text(literal@),
{
    let l = chars_of(literal);
    let a = chars_of("</script");
    let b = chars_of("<\\/script");
    let c = chars_of("<!--");
    let d = chars_of("<\\!--");
    proof {
        reveal_strlit("</script");
        reveal_strlit("<!--");
    }
    let once = replace_all(l.as_slice(), a.as_slice(), b.as_slice());
    let twice = replace_all(once.as_slice(), c.as_slice(), d.as_slice());
    string_of(twice.as_slice())
}

/// The session text as a script-safe JavaScript string.
pub fn js_string(value: &str) -> (r: Result<String, ViewError>)
    ensures
        r matches Ok(x) && x@ == script_safe_text(json_quoted(value@)),
{
    match json_string_literal(value) {
        Some(lit) => Ok(script_safe(lit.as_str())),
        None => Err(ViewError::Encoding),
    }
}

/// The script that hands the session and its context to the page once it is loaded.
pub open spec fn boot_text(session_js: Seq<char>, context_json: Seq<char>) -> Seq<char> {
    "<script>\nwindow.addEventListener('DOMContentLoaded', () => {\n  processSession("@ + session_js
        + ", "@ + context_json + ");\n});\n</script>\n"@
}

pub fn boot_script(session_js: &str, context_json: &str) -> (r: String)
    ensures
        r@ == boot_text(session_js@, context_json@),
{
    let mut out = owned("<script>\nwindow.addEventListener('DOMContentLoaded', () => {\n  processSession(");
    push_str(&mut out, session_js);
    push_str(&mut out, ", ");
    push_str(&mut out, context_json);
    push_str(&mut out, ");\n});\n</script>\n");
    out
}

/// The page: the boot script goes before every `</body>`, or after the page and a newline when
/// it has none.
pub open spec fn page_text(template: Seq<char>, boot: Seq<char>) -> Seq<char> {
    if first_occurrence(template, "</body>"@) is Some {
        replaced(template, "</body>"@, boot + "</body>"@)
    } else {
        template + "\n"@ + boot
    }
}

pub fn inject_boot(template: &str, boot: &str) -> (r: String)
    ensures
        r@ == page_text(template@, boot@),
{
    let t = chars_of(template);
    let close = chars_of("</body>");
    proof { reveal_strlit("</body>"); }
    match find(t.as_slice(), close.as_slice()) {
        Some(_) => {
            let mut tail = chars_of(boot);
            let mut k: usize = 0;
            let ghost bv = tail@;
            while k < close.len()
                invariant
                    k <= close.len(),
                    tail@ == bv + close@.take(k as int),
                decreases close.len() - k,
            {
                tail.push(close[k]);
                k = k + 1;
                assert(tail@ =~= bv + close@.take(k as int));
            }
            assert(close@.take(close.len() as int) =~= close@);
            let out = replace_all(t.as_slice(), close.as_slice(), tail.as_slice());
            string_of(out.as_slice())
        },
        None => {
            let mut out = owned(template);
            push_str(&mut out, "\n");
            push_str(&mut out, boot);
            out
        },
    }
}

/// The report of `view`.
pub open spec fn view_report_view(opened: bool, viewer_path: Seq<char>, s: ViewerSource, bytes: u64) -> JsonV {
    JsonV::Object(
        seq![
            ("ok"@, JsonV::Bool(true)),
            ("opened"@, JsonV::Bool(opened)),
            ("viewer_path"@, jtext(viewer_path)),
            ("source"@, JsonV::Object(
                seq![
                    ("kind"@, jtext(s.kind@)),
                    ("name"@, jtext(s.name@)),
                    ("path"@, str_or_null(opt_str(s.path))),
                    ("run_id"@, str_or_null(opt_str(s.run_id))),
                    ("codex_bin"@, jtext(s.codex_bin@)),
                    ("codex_home"@, str_or_null(opt_str(s.codex_home))),
                    ("bytes"@, juint(bytes)),
                ],
            )),
        ],
    )
}

/// `bytes` is the length of the session text in UTF-8.
pub fn view_report(opened: bool, viewer_path: &str, source: &ViewerSource, bytes: u64) -> (r: Json)
    ensures
        r@ == view_report_view(opened, viewer_path@, *source, bytes),
{
    let mut s = ObjectBuilder::new();
    s.add("kind", Json::text(source.kind.as_str()));
    s.add("name", Json::text(source.name.as_str()));
    s.add("path", Json::opt_text(&source.path));
    s.add("run_id", Json::opt_text(&source.run_id));
    s.add("codex_bin", Json::text(source.codex_bin.as_str()));
    s.add("codex_home", Json::opt_text(&source.codex_home));
    s.add("bytes", Json::uint(bytes));
    assert(s.model() =~= view_report_view(opened, viewer_path@, *source, bytes)->Object_0[3].1->Object_0);
    let mut b = ObjectBuilder::new();
    b.add("ok", Json::Bool(true));
    b.add("opened", Json::Bool(opened));
    b.add("viewer_path", Json::text(viewer_path));
    b.add("source", s.build());
    assert(b.model() =~= view_report_view(opened, viewer_path@, *source, bytes)->Object_0);
    b.build()
}

} // verus!
