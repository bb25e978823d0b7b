use vstd::prelude::*;
use vstd::string::*;

use crate::json::{Json, JsonV, jget, ju64};
use crate::text::{
    chars_of, find, first_occurrence, occurs_at, owned, push_chars, push_str, replace_all,
    replaced, slice_chars, string_of, trim_bounds, trimmed,
};

verus! {

/// Characters that a shell word may hold unquoted.
pub open spec fn shell_safe(c: char) -> bool {
    ||| ('a' <= c && c <= 'z')
    ||| ('A' <= c && c <= 'Z')
    ||| ('0' <= c && c <= '9')
    ||| c == '/' || c == '.' || c == '_' || c == '-' || c == ':'
}

/// A shell word for `s`: `s` itself when every character is safe, else `s` in single quotes
/// with each `'` written as `'\''`.
pub open spec fn shell_quoted(s: Seq<char>) -> Seq<char> {
    if forall|i: int| 0 <= i < s.len() ==> shell_safe(#[trigger] s[i]) {
        s
    } else {
        seq!['\''] + replaced(s, seq!['\''], seq!['\'', '\\', '\'', '\'']) + seq!['\'']
    }
}

/// Quotes a value for a POSIX shell command line.
pub fn shell_quote(value: &str) -> (r: String)
    ensures
        r@ == shell_quoted(value@),
{
    let v = chars_of(value);
    let mut i: usize = 0;
    let mut safe = true;
    while i < v.len()
        invariant
            i <= v.len(),
            safe == (forall|k: int| 0 <= k < i ==> shell_safe(#[trigger] v@[k])),
        decreases v.len() - i,
    {
        let c = v[i];
        let ok = ('a' <= c && c <= 'z') || ('A' <= c && c <= 'Z') || ('0' <= c && c <= '9') || c
            == '/' || c == '.' || c == '_' || c == '-' || c == ':';
        safe = safe && ok;
        i = i + 1;
    }
    if safe {
        return string_of(v.as_slice());
    }
    let quote: Vec<char> = vec!['\''];
    let escaped: Vec<char> = vec!['\'', '\\', '\'', '\''];
    assert(quote@ =~= seq!['\'']);
    assert(escaped@ =~= seq!['\'', '\\', '\'', '\'']);
    let body = replace_all(v.as_slice(), quote.as_slice(), escaped.as_slice());
    let mut out = string_of(quote.as_slice());
    push_chars(&mut out, body.as_slice());
    push_chars(&mut out, quote.as_slice());
    out
}

/// The command that reopens a thread in the Codex TUI.
pub open spec fn resume_command_text(codex_home: Option<Seq<char>>, thread_id: Seq<char>) -> Seq<
    char,
> {
    match codex_home {
        Some(home) => "CODEX_HOME="@ + shell_quoted(home) + " codex resume --include-non-interactive "@
            + shell_quoted(thread_id),
        None => "codex resume --include-non-interactive "@ + shell_quoted(thread_id),
    }
}

/// `codex resume` for a thread, under the given Codex home when there is one.
pub fn resume_command(codex_home: Option<&str>, thread_id: &str) -> (r: String)
    ensures
        r@ == resume_command_text(
            match codex_home {
                Some(h) => Some(h@),
                None => None,
            },
            thread_id@,
        ),
{
    match codex_home {
        Some(home) => {
            let mut out = owned("CODEX_HOME=");
            let h = shell_quote(home);
            push_str(&mut out, h.as_str());
            push_str(&mut out, " codex resume --include-non-interactive ");
            let t = shell_quote(thread_id);
            push_str(&mut out, t.as_str());
            out
        },
        None => {
            let mut out = owned("codex resume --include-non-interactive ");
            let t = shell_quote(thread_id);
            push_str(&mut out, t.as_str());
            out
        },
    }
}

/// The text between the first `<proposed_plan>` and the first `</proposed_plan>` after it,
/// trimmed.
pub open spec fn proposed_plan(text: Seq<char>) -> Option<Seq<char>> {
    match first_occurrence(text, "<proposed_plan>"@) {
        None => None,
        Some(i) => {
            let rest = text.skip(i + "<proposed_plan>"@.len());
            match first_occurrence(rest, "</proposed_plan>"@) {
                None => None,
                Some(j) => Some(trimmed(rest.take(j))),
            }
        },
    }
}

/// Extracts a `<proposed_plan>` block from an agent message.
pub fn extract_proposed_plan(text: &str) -> (r: Option<String>)
    ensures
        match r {
            Some(p) => proposed_plan(text@) == Some(p@),
            None => proposed_plan(text@) is None,
        },
{
    let t = chars_of(text);
    let open = chars_of("<proposed_plan>");
    let close = chars_of("</proposed_plan>");
    let i = match find(t.as_slice(), open.as_slice()) {
        Some(i) => i,
        None => {
            return None;
        },
    };
    let tlen = t.len();
    assert(occurs_at(t@, open@, i as int));
    assert(i + open@.len() <= tlen);
    let start = i + open.len();
    let rest = slice_chars(t.as_slice(), start, t.len());
    assert(rest@ =~= t@.skip(i + open@.len()));
    let j = match find(rest.as_slice(), close.as_slice()) {
        Some(j) => j,
        None => {
            return None;
        },
    };
    let inner = slice_chars(rest.as_slice(), 0, j);
    assert(inner@ =~= rest@.take(j as int));
    let (a, b) = trim_bounds(inner.as_slice());
    let plan = slice_chars(inner.as_slice(), a, b);
    Some(string_of(plan.as_slice()))
}

/// The `result` of a JSON-RPC response, or the whole message when it has none.
pub open spec fn payload_of(v: JsonV) -> JsonV {
    match jget(v, "result"@) {
        Some(r) => r,
        None => v,
    }
}

pub fn response_payload(value: Json) -> (r: Json)
    ensures
        r@ == payload_of(value@),
{
    match value.get("result") {
        Some(r) => r.deep_clone(),
        None => value,
    }
}

/// The message is the response to request `id`.
pub open spec fn answers_request(v: JsonV, id: u64) -> bool {
    ju64(jget(v, "id"@)) == Some(id)
}

pub fn is_response_id(value: &Json, id: u64) -> (r: bool)
    ensures
        r == answers_request(value@, id),
{
    match value.get("id") {
        Some(v) => match v.as_u64() {
            Some(n) => n == id,
            None => false,
        },
        None => false,
    }
}

} // verus!
