use vstd::prelude::*;
use vstd::string::*;

use crate::text::{decimal_digits, decimal_text, owned, push_chars, push_str};

verus! {

/// `Path::join` on Unix: an absolute name replaces the base; otherwise the name follows the
/// base, after a `/` unless the base is empty or already ends with one.
pub open spec fn joined(base: Seq<char>, name: Seq<char>) -> Seq<char> {
    if name.len() > 0 && name[0] == '/' {
        name
    } else if base.len() == 0 || base.last() == '/' {
        base + name
    } else {
        base + "/"@ + name
    }
}

pub fn join_path(base: &str, name: &str) -> (r: String)
    ensures
        r@ == joined(base@, name@),
{
    let nv = crate::text::chars_of(name);
    if nv.len() > 0 && nv[0] == '/' {
        return owned(name);
    }
    let bv = crate::text::chars_of(base);
    let mut out = owned(base);
    if !(bv.len() == 0 || bv[bv.len() - 1] == '/') {
        push_str(&mut out, "/");
    }
    push_str(&mut out, name);
    proof { reveal_strlit("/"); }
    out
}

/// The home directory, or the fallback when there is none.
pub open spec fn home_or(home: Option<Seq<char>>, fallback: Seq<char>) -> Seq<char> {
    match home {
        Some(h) => h,
        None => fallback,
    }
}

/// The default log directory: `.codex-app-cli/logs` under the home directory, or under `.`.
pub open spec fn default_log_dir_text(home: Option<Seq<char>>) -> Seq<char> {
    joined(joined(home_or(home, "."@), ".codex-app-cli"@), "logs"@)
}

pub fn default_log_dir(home: Option<&str>) -> (r: String)
    ensures
        r@ == default_log_dir_text(
            match home {
                Some(h) => Some(h@),
                None => None,
            },
        ),
{
    let base = match home {
        Some(h) => h,
        None => ".",
    };
    let a = join_path(base, ".codex-app-cli");
    join_path(a.as_str(), "logs")
}

/// The default viewer directory: `.codexctl/viewer` under the home directory, or under the
/// temporary directory.
pub open spec fn default_viewer_dir_text(home: Option<Seq<char>>, temp_dir: Seq<char>) -> Seq<char> {
    joined(joined(home_or(home, temp_dir), ".codexctl"@), "viewer"@)
}

pub fn default_viewer_dir(home: Option<&str>, temp_dir: &str) -> (r: String)
    ensures
        r@ == default_viewer_dir_text(
            match home {
                Some(h) => Some(h@),
                None => None,
            },
            temp_dir@,
        ),
{
    let base = match home {
        Some(h) => h,
        None => temp_dir,
    };
    let a = join_path(base, ".codexctl");
    join_path(a.as_str(), "viewer")
}

/// The log file of a run started at `ms`: `run-<ms>.jsonl`.
pub open spec fn run_log_name_text(ms: u64) -> Seq<char> {
    "run-"@ + decimal_digits(ms as nat) + ".jsonl"@
}

pub fn run_log_file_name(ms: u64) -> (r: String)
    ensures
        r@ == run_log_name_text(ms),
{
    let mut out = owned("run-");
    let d = decimal_text(ms);
    push_chars(&mut out, d.as_slice());
    push_str(&mut out, ".jsonl");
    out
}

/// A daemon run id: `run-<millis>-<pid>`.
pub open spec fn run_id_text_of(millis: u64, pid: u32) -> Seq<char> {
    "run-"@ + decimal_digits(millis as nat) + "-"@ + decimal_digits(pid as nat)
}

pub fn new_run_id(millis: u64, pid: u32) -> (r: String)
    ensures
        r@ == run_id_text_of(millis, pid),
{
    let mut out = owned("run-");
    let d = decimal_text(millis);
    push_chars(&mut out, d.as_slice());
    push_str(&mut out, "-");
    let p = decimal_text(pid as u64);
    push_chars(&mut out, p.as_slice());
    out
}

/// The page written by `view`: `view-<millis>-<pid>.html`.
pub open spec fn viewer_file_text(millis: u64, pid: u32) -> Seq<char> {
    "view-"@ + decimal_digits(millis as nat) + "-"@ + decimal_digits(pid as nat) + ".html"@
}

pub fn viewer_file_name(millis: u64, pid: u32) -> (r: String)
    ensures
        r@ == viewer_file_text(millis, pid),
{
    let mut out = owned("view-");
    let d = decimal_text(millis);
    push_chars(&mut out, d.as_slice());
    push_str(&mut out, "-");
    let p = decimal_text(pid as u64);
    push_chars(&mut out, p.as_slice());
    push_str(&mut out, ".html");
    out
}

/// The daemon socket of a user: `codex-app-<user>.sock`, `default` when the user is unknown.
pub open spec fn socket_file_text(user: Option<Seq<char>>) -> Seq<char> {
    "codex-app-"@ + home_or(user, "default"@) + ".sock"@
}

pub fn socket_file_name(user: Option<&str>) -> (r: String)
    ensures
        r@ == socket_file_text(
            match user {
                Some(u) => Some(u@),
                None => None,
            },
        ),
{
    let mut out = owned("codex-app-");
    match user {
        Some(u) => push_str(&mut out, u),
        None => push_str(&mut out, "default"),
    }
    push_str(&mut out, ".sock");
    out
}

} // verus!
