use vstd::prelude::*;
use vstd::string::*;

use crate::inputs::{
    answers_entry, answers_for, grouped, lemma_text_less_irreflexive, lemma_text_less_total,
    lemma_text_less_transitive, text_less,
};
use crate::argv::{find_opt, lemma_find_opt, opt_matches};
use crate::grammar::{Cmd, Opt, opt_alias, opt_long};
use crate::json::{JsonV, jget, jstr};
use crate::cli::{
    approval_in, budget_in, codex_bin_in, effort_in, interval_in, limit_in, log_mode_in,
    question_mode_in, sandbox_in, status_in, timeout_in, value_of,
};
use crate::questions::{auto_choice, first_recommended, is_recommended, option_labels, questions_of};
use crate::reports::{item_messages, item_text, message_view, thread_messages, turn_id_of, turn_items};
use crate::session::{Pump, RunStateV, answered_view, reset_view, run_step, snapshot_view};
use crate::turn::{RunStatus, TurnRecordV, collect_item_effect, completed_item, item_type, method_of};
use crate::util::answers_request;
use crate::questions::{answer_payload, answers_payload};
use crate::settings::{
    ApprovalPolicy, Effort, LIMIT_MAX, LogMode, NonZeroCount, RunTimeout, SandboxMode, TokenBudget, approval_named, approval_protocol,
    QuestionMode, effort_named, effort_protocol, goal_status_named, question_mode_named, limit_meaning, limit_text, log_mode_named, log_mode_text,
    sandbox_named, sandbox_protocol,
};
use crate::util::{proposed_plan, shell_quoted, shell_safe};
use crate::viewer::script_safe_text;
use crate::text::{
    first_occurrence, lemma_first_occurrence_is, occurs_at, replaced,
    all_digits, decimal_digits, decimal_value, digit_value, is_digit, is_white, lead_white, lowered,
    lower_char, parsed_u64, trail_white, trimmed, unsigned_digits,
};

verus! {

// ---------------------------------------------------------------- budgets and timeouts

proof fn lemma_digits(n: nat)
    ensures
        decimal_digits(n).len() > 0,
        all_digits(decimal_digits(n)),
        decimal_value(decimal_digits(n)) == n,
    decreases n,
{
    let d = decimal_digits(n);
    if n < 10 {
        assert(d.drop_last() =~= Seq::<char>::empty());
        assert(d.last() as int == 48 + n);
        assert(decimal_value(d) == decimal_value(d.drop_last()) * 10 + digit_value(d.last()));
        assert(decimal_value(d.drop_last()) == 0);
    } else {
        lemma_digits(n / 10);
        let h = decimal_digits(n / 10);
        assert(d.drop_last() =~= h);
        assert(d.last() as int == 48 + n % 10);
        assert(n == (n / 10) * 10 + n % 10);
        assert(decimal_value(d) == decimal_value(d.drop_last()) * 10 + digit_value(d.last()));
        assert(digit_value(d.last()) == n % 10);
        assert(decimal_value(h) * 10 == (n / 10) * 10);
        assert forall|i: int| 0 <= i < d.len() implies is_digit(#[trigger] d[i]) by {
            if i < h.len() {
                assert(d[i] == h[i]);
            }
        }
    }
}

proof fn lemma_digits_plain(n: nat)
    ensures
        trimmed(decimal_digits(n)) == decimal_digits(n),
        lowered(decimal_digits(n)) == decimal_digits(n),
{
    let d = decimal_digits(n);
    lemma_digits(n);
    assert(is_digit(d[0]));
    assert(is_digit(d.last()));
    assert(lead_white(d) == 0);
    assert(d.skip(0) =~= d);
    assert(trail_white(d) == 0);
    assert(d.take(d.len() as int) =~= d);
    assert(lowered(d) =~= d) by {
        assert forall|i: int| 0 <= i < d.len() implies lowered(d)[i] == d[i] by {
            assert(is_digit(d[i]));
            assert(lower_char(d[i]) == d[i]);
        }
    }
}

/// A budget or timeout written as text reads back as the same limit: `unlimited` for no limit,
/// the decimal count for a count (counts are positive and at most `LIMIT_MAX`).
pub proof fn law_limit_text_round_trip(limit: Option<u64>)
    requires
        limit matches Some(n) ==> 0 < n <= LIMIT_MAX,
    ensures
        limit_meaning(limit_text(limit)) == Ok::<Option<u64>, crate::settings::LimitError>(limit),
{
    match limit {
        None => {
            reveal_strlit("unlimited");
            let t = "unlimited"@;
            assert(!is_white(t[0]));
            assert(!is_white(t.last()));
            assert(lead_white(t) == 0);
            assert(trail_white(t) == 0);
            assert(t.skip(0) =~= t);
            assert(t.take(t.len() as int) =~= t);
            assert(lowered(t) =~= t);
        },
        Some(n) => {
            let d = decimal_digits(n as nat);
            lemma_digits(n as nat);
            lemma_digits_plain(n as nat);
            reveal_strlit("unlimited");
            reveal_strlit("infinite");
            reveal_strlit("infinity");
            reveal_strlit("none");
            reveal_strlit("off");
            reveal_strlit("0");
            assert(is_digit(d[0]));
            assert(d != "unlimited"@ && d != "infinite"@ && d != "infinity"@ && d != "none"@ && d
                != "off"@) by {
                assert(!is_digit("unlimited"@[0]));
                assert(!is_digit("infinite"@[0]));
                assert(!is_digit("infinity"@[0]));
                assert(!is_digit("none"@[0]));
                assert(!is_digit("off"@[0]));
            }
            if d == "0"@ {
                assert(decimal_value(d) == decimal_value(d.drop_last()) * 10 + 0);
                assert(d.drop_last() =~= Seq::<char>::empty());
            }
            assert(unsigned_digits(d) == d);
            assert(parsed_u64(d) == Some(n));
        },
    }
}

/// A token budget written as text reads back as that same budget: the text means its limit,
/// and no other budget has that limit (for budgets up to `LIMIT_MAX`).
pub proof fn law_token_budget_round_trip(b: TokenBudget)
    requires
        b.as_limit() matches Some(n) ==> 0 < n <= LIMIT_MAX,
    ensures
        limit_meaning(limit_text(b.as_limit())) == Ok::<Option<u64>, crate::settings::LimitError>(
            b.as_limit(),
        ),
        forall|other: TokenBudget| #[trigger] other.as_limit() == b.as_limit() ==> other == b,
{
    law_limit_text_round_trip(b.as_limit());
    assert forall|other: TokenBudget| #[trigger] other.as_limit() == b.as_limit() implies other
        == b by {
        if let (TokenBudget::Limited(x), TokenBudget::Limited(y)) = (other, b) {
            NonZeroCount::lemma_view_determines(x, y);
        }
    }
}

/// A timeout written as text reads back as that same timeout: the text means its limit, and
/// no other timeout has that limit (for timeouts up to `LIMIT_MAX` seconds).
pub proof fn law_run_timeout_round_trip(t: RunTimeout)
    requires
        t.as_limit() matches Some(n) ==> 0 < n <= LIMIT_MAX,
    ensures
        limit_meaning(limit_text(t.as_limit())) == Ok::<Option<u64>, crate::settings::LimitError>(
            t.as_limit(),
        ),
        forall|other: RunTimeout| #[trigger] other.as_limit() == t.as_limit() ==> other == t,
{
    law_limit_text_round_trip(t.as_limit());
    assert forall|other: RunTimeout| #[trigger] other.as_limit() == t.as_limit() implies other
        == t by {
        if let (RunTimeout::Seconds(x), RunTimeout::Seconds(y)) = (other, t) {
            NonZeroCount::lemma_view_determines(x, y);
        }
    }
}

/// A log mode's name reads back as the same mode.
pub proof fn law_log_mode_round_trip(mode: LogMode)
    ensures
        log_mode_named(log_mode_text(mode)) == Some(mode),
{
    reveal_strlit("off");
    reveal_strlit("summary");
    reveal_strlit("full");
    match mode {
        LogMode::Off => {},
        LogMode::Summary => {
            assert("summary"@[0] != "off"@[0]);
        },
        LogMode::Full => {
            assert("full"@[0] != "off"@[0]);
            assert("full"@[0] != "summary"@[0]);
        },
    }
}

// ---------------------------------------------------------------- answers of `session answer`

proof fn lemma_answers_nonempty(parsed: Seq<(Seq<char>, Seq<char>)>, id: Seq<char>)
    ensures
        answers_for(parsed, id).len() > 0 <==> exists|k: int|
            0 <= k < parsed.len() && (#[trigger] parsed[k]).0 == id,
    decreases parsed.len(),
{
    if parsed.len() > 0 {
        let init = parsed.drop_last();
        lemma_answers_nonempty(init, id);
        if exists|k: int| 0 <= k < init.len() && (#[trigger] init[k]).0 == id {
            let k = choose|k: int| 0 <= k < init.len() && (#[trigger] init[k]).0 == id;
            assert(parsed[k] == init[k]);
        }
        if exists|k: int| 0 <= k < parsed.len() && (#[trigger] parsed[k]).0 == id {
            let k = choose|k: int| 0 <= k < parsed.len() && (#[trigger] parsed[k]).0 == id;
            if k < parsed.len() - 1 {
                assert(init[k] == parsed[k]);
            }
        }
    }
}

/// Strictly ordered key lists with the same keys are equal.
proof fn lemma_sorted_unique(a: Seq<Seq<char>>, b: Seq<Seq<char>>)
    requires
        forall|i: int, j: int| 0 <= i < j < a.len() ==> text_less(#[trigger] a[i], #[trigger] a[j]),
        forall|i: int, j: int| 0 <= i < j < b.len() ==> text_less(#[trigger] b[i], #[trigger] b[j]),
        forall|x: Seq<char>| a.contains(x) <==> b.contains(x),
    ensures
        a == b,
    decreases a.len(),
{
    if a.len() == 0 {
        if b.len() > 0 {
            assert(b.contains(b[0]));
        }
        assert(a =~= b);
    } else if b.len() == 0 {
        assert(a.contains(a[0]));
    } else {
        assert(a.contains(a[0]));
        assert(b.contains(b[0]));
        let j = choose|j: int| 0 <= j < b.len() && b[j] == a[0];
        let k = choose|k: int| 0 <= k < a.len() && a[k] == b[0];
        if a[0] != b[0] {
            assert(j > 0 && k > 0);
            assert(text_less(b[0], b[j]));
            assert(text_less(a[0], a[k]));
            lemma_text_less_transitive(a[0], b[0], a[0]);
            lemma_text_less_irreflexive(a[0]);
        }
        let ta = a.drop_first();
        let tb = b.drop_first();
        assert forall|x: Seq<char>| ta.contains(x) <==> tb.contains(x) by {
            if ta.contains(x) {
                let p = choose|p: int| 0 <= p < ta.len() && ta[p] == x;
                assert(a[p + 1] == x);
                assert(text_less(a[0], a[p + 1]));
                lemma_text_less_irreflexive(a[0]);
                assert(b.contains(x));
                let q = choose|q: int| 0 <= q < b.len() && b[q] == x;
                assert(q != 0);
                assert(tb[q - 1] == x);
            }
            if tb.contains(x) {
                let p = choose|p: int| 0 <= p < tb.len() && tb[p] == x;
                assert(b[p + 1] == x);
                assert(text_less(b[0], b[p + 1]));
                lemma_text_less_irreflexive(b[0]);
                assert(a.contains(x));
                let q = choose|q: int| 0 <= q < a.len() && a[q] == x;
                assert(q != 0);
                assert(ta[q - 1] == x);
            }
        }
        assert forall|i: int, j: int| 0 <= i < j < ta.len() implies text_less(
            #[trigger] ta[i],
            #[trigger] ta[j],
        ) by {
            assert(ta[i] == a[i + 1] && ta[j] == a[j + 1]);
        }
        assert forall|i: int, j: int| 0 <= i < j < tb.len() implies text_less(
            #[trigger] tb[i],
            #[trigger] tb[j],
        ) by {
            assert(tb[i] == b[i + 1] && tb[j] == b[j + 1]);
        }
        lemma_sorted_unique(ta, tb);
        assert(a =~= seq![a[0]] + ta);
        assert(b =~= seq![b[0]] + tb);
    }
}

/// The grouping of `--answer` pairs is determined by the pairs: two groupings of the same
/// pairs are the same members.
pub proof fn law_grouping_unique(
    m1: Seq<(Seq<char>, JsonV)>,
    m2: Seq<(Seq<char>, JsonV)>,
    parsed: Seq<(Seq<char>, Seq<char>)>,
)
    requires
        grouped(m1, parsed),
        grouped(m2, parsed),
    ensures
        m1 == m2,
{
    let k1 = m1.map_values(|e: (Seq<char>, JsonV)| e.0);
    let k2 = m2.map_values(|e: (Seq<char>, JsonV)| e.0);
    assert forall|i: int, j: int| 0 <= i < j < k1.len() implies text_less(
        #[trigger] k1[i],
        #[trigger] k1[j],
    ) by {
        assert(text_less(m1[i].0, m1[j].0));
    }
    assert forall|i: int, j: int| 0 <= i < j < k2.len() implies text_less(
        #[trigger] k2[i],
        #[trigger] k2[j],
    ) by {
        assert(text_less(m2[i].0, m2[j].0));
    }
    assert forall|x: Seq<char>| k1.contains(x) <==> k2.contains(x) by {
        lemma_answers_nonempty(parsed, x);
        if k1.contains(x) {
            let i = choose|i: int| 0 <= i < k1.len() && k1[i] == x;
            assert(answers_for(parsed, m1[i].0).len() > 0);
            let k = choose|k: int| 0 <= k < parsed.len() && (#[trigger] parsed[k]).0 == x;
            let j = choose|j: int| 0 <= j < m2.len() && (#[trigger] m2[j]).0 == (#[trigger] parsed[k]).0;
            assert(k2[j] == x);
        }
        if k2.contains(x) {
            let i = choose|i: int| 0 <= i < k2.len() && k2[i] == x;
            assert(answers_for(parsed, m2[i].0).len() > 0);
            let k = choose|k: int| 0 <= k < parsed.len() && (#[trigger] parsed[k]).0 == x;
            let j = choose|j: int| 0 <= j < m1.len() && (#[trigger] m1[j]).0 == (#[trigger] parsed[k]).0;
            assert(k1[j] == x);
        }
    }
    lemma_sorted_unique(k1, k2);
    assert(m1.len() == m2.len()) by {
        assert(k1.len() == k2.len());
    }
    assert forall|i: int| 0 <= i < m1.len() implies m1[i] == m2[i] by {
        assert(k1[i] == k2[i]);
        assert(m1[i].1 == answers_entry(answers_for(parsed, m1[i].0)));
        assert(m2[i].1 == answers_entry(answers_for(parsed, m2[i].0)));
    }
    assert(m1 =~= m2);
}

/// `session answer` with `--answer` pairs for one question sends the payload that `answer`
/// builds for that question and its answers in the order given.
pub proof fn law_single_question_answer(m: Seq<(Seq<char>, JsonV)>, parsed: Seq<(Seq<char>, Seq<char>)>, id: Seq<char>)
    requires
        parsed.len() > 0,
        forall|k: int| 0 <= k < parsed.len() ==> (#[trigger] parsed[k]).0 == id,
        grouped(m, parsed),
    ensures
        answers_payload(m) == answer_payload(id, answers_for(parsed, id)),
{
    let m0 = seq![(id, answers_entry(answers_for(parsed, id)))];
    lemma_answers_nonempty(parsed, id);
    assert(parsed[0].0 == id);
    assert(grouped(m0, parsed)) by {
        assert forall|k: int| 0 <= k < parsed.len() implies exists|i: int|
            0 <= i < m0.len() && (#[trigger] m0[i]).0 == (#[trigger] parsed[k]).0 by {
            assert(m0[0].0 == parsed[k].0);
        }
    }
    law_grouping_unique(m, m0, parsed);
    assert(answers_payload(m) =~~= answer_payload(id, answers_for(parsed, id)));
}

// ---------------------------------------------------------------- daemon runs

/// A request for user input pauses the run: it needs input, and the request's id is the
/// question waiting for an answer (the message is no response to the turn's own request).
pub proof fn law_input_request_pauses(s: RunStateV, turn_request: u64, m: JsonV)
    requires
        !answers_request(m, turn_request),
        method_of(m) == Some("item/tool/requestUserInput"@),
    ensures
        run_step(s, turn_request, m).1 == Pump::Pause,
        run_step(s, turn_request, m).0.status == RunStatus::NeedsInput,
        run_step(s, turn_request, m).0.pending_request_id == jget(m, "id"@),
        run_step(s, turn_request, m).0.questions == questions_of(m),
{
}

/// `turn/completed` ends the turn: the run is completed, with no question pending and no turn
/// request left to pump.
pub proof fn law_turn_completed_pauses(s: RunStateV, turn_request: u64, m: JsonV)
    requires
        !answers_request(m, turn_request),
        method_of(m) == Some("turn/completed"@),
    ensures
        run_step(s, turn_request, m).1 == Pump::Pause,
        run_step(s, turn_request, m).0.status == RunStatus::Completed,
        run_step(s, turn_request, m).0.pending_request_id is None,
        run_step(s, turn_request, m).0.current_turn_request_id is None,
{
    reveal_strlit("turn/completed");
    reveal_strlit("item/tool/requestUserInput");
    reveal_strlit("item/completed");
    reveal_strlit("item/agentMessage/delta");
    reveal_strlit("thread/tokenUsage/updated");
    assert("turn/completed"@[0] != "item/tool/requestUserInput"@[0]);
    assert("turn/completed"@[0] != "item/completed"@[0]);
    assert("turn/completed"@[0] != "item/agentMessage/delta"@[0]);
    assert("turn/completed"@[1] != "thread/tokenUsage/updated"@[1]);
}

/// A structured question is answered once: after an answer is taken, nothing is pending, so a
/// second answer is refused, and `session send` is accepted again.
pub proof fn law_answer_consumes_question(s: RunStateV, answer: JsonV)
    ensures
        answered_view(s, answer).pending_request_id is None,
        answered_view(s, answer).answers.last() == answer,
        answered_view(s, answer).status == RunStatus::Running,
{
}

/// The answer to a question is what the run records: a question raised by a request for input
/// and then answered leaves that answer last among the run's answers, with nothing pending.
pub proof fn law_question_then_answer(s: RunStateV, turn_request: u64, m: JsonV, answer: JsonV)
    requires
        !answers_request(m, turn_request),
        method_of(m) == Some("item/tool/requestUserInput"@),
        jget(m, "id"@) is Some,
    ensures
        run_step(s, turn_request, m).0.pending_request_id is Some,
        answered_view(run_step(s, turn_request, m).0, answer).pending_request_id is None,
        answered_view(run_step(s, turn_request, m).0, answer).answers == s.answers.push(answer),
{
}

/// Reading a run after it is put in the table gives back its server and state.
pub proof fn law_read_after_insert<S>(
    table: Map<Seq<char>, (S, RunStateV)>,
    run_id: Seq<char>,
    server: S,
    state: RunStateV,
)
    ensures
        table.insert(run_id, (server, state)).contains_key(run_id),
        table.insert(run_id, (server, state))[run_id] == (server, state),
{
}

/// A stopped run is gone: reading or stopping it again finds nothing, and the other runs stay.
pub proof fn law_stop_forgets<S>(table: Map<Seq<char>, (S, RunStateV)>, run_id: Seq<char>, other: Seq<char>)
    requires
        other != run_id,
    ensures
        !table.remove(run_id).contains_key(run_id),
        table.remove(run_id).contains_key(other) == table.contains_key(other),
        table.contains_key(other) ==> table.remove(run_id)[other] == table[other],
{
}

/// The sandbox, approval policy and reasoning effort named on the command line are sent to the
/// app-server under the same names: each protocol name reads back as its setting.
pub proof fn law_setting_names_round_trip(sandbox: SandboxMode, approval: ApprovalPolicy, effort: Effort)
    ensures
        sandbox_named(sandbox_protocol(sandbox)) == Some(sandbox),
        approval_named(approval_protocol(approval)) == Some(approval),
        effort_named(effort_protocol(effort)) == Some(effort),
{
    reveal_strlit("read-only");
    reveal_strlit("workspace-write");
    reveal_strlit("danger-full-access");
    reveal_strlit("untrusted");
    reveal_strlit("on-failure");
    reveal_strlit("on-request");
    reveal_strlit("never");
    reveal_strlit("none");
    reveal_strlit("minimal");
    reveal_strlit("low");
    reveal_strlit("medium");
    reveal_strlit("high");
    reveal_strlit("xhigh");
    assert("on-request"@[3] != "on-failure"@[3]);
    assert("high"@[0] != "none"@[0]);
    match sandbox {
        SandboxMode::ReadOnly => {},
        SandboxMode::WorkspaceWrite => {
            assert("workspace-write"@.len() != "read-only"@.len());
        },
        SandboxMode::DangerFullAccess => {
            assert("danger-full-access"@.len() != "read-only"@.len());
            assert("danger-full-access"@.len() != "workspace-write"@.len());
        },
    }
    match approval {
        ApprovalPolicy::Untrusted => {},
        ApprovalPolicy::OnFailure => {
            assert("on-failure"@.len() != "untrusted"@.len());
        },
        ApprovalPolicy::OnRequest => {
            assert("on-request"@.len() != "untrusted"@.len());
            assert("on-request"@ != "on-failure"@);
        },
        ApprovalPolicy::Never => {
            assert("never"@.len() != "untrusted"@.len());
            assert("never"@.len() != "on-failure"@.len());
            assert("never"@.len() != "on-request"@.len());
        },
    }
    match effort {
        Effort::NoReasoning => {},
        Effort::Minimal => {
            assert("minimal"@.len() != "none"@.len());
        },
        Effort::Low => {
            assert("low"@.len() != "none"@.len());
            assert("low"@.len() != "minimal"@.len());
        },
        Effort::Medium => {
            assert("medium"@.len() != "none"@.len());
            assert("medium"@.len() != "minimal"@.len());
            assert("medium"@.len() != "low"@.len());
        },
        Effort::High => {
            assert("high"@ != "none"@);
            assert("high"@.len() != "minimal"@.len());
            assert("high"@.len() != "low"@.len());
            assert("high"@.len() != "medium"@.len());
        },
        Effort::Xhigh => {
            assert("xhigh"@.len() != "none"@.len());
            assert("xhigh"@.len() != "minimal"@.len());
            assert("xhigh"@.len() != "low"@.len());
            assert("xhigh"@.len() != "medium"@.len());
            assert("xhigh"@.len() != "high"@.len());
        },
    }
}

/// A new turn starts clean: the snapshot after the turn fields are reset shows a running run
/// with no question, answer, plan, message, usage, completion, warning, error or item.
pub proof fn law_reset_snapshot(s: RunStateV)
    ensures
        ({
            let r = reset_view(s);
            &&& r.status == RunStatus::Running
            &&& r.pending_request_id is None
            &&& r.questions.len() == 0
            &&& r.answers.len() == 0
            &&& r.record.plans.len() == 0
            &&& r.record.agent_messages.len() == 0
            &&& r.record.items.len() == 0
            &&& r.usage is None
            &&& r.completed is None
            &&& r.warnings.len() == 0
            &&& r.errors.len() == 0
            &&& r.run_id == s.run_id
            &&& r.thread_id == s.thread_id
        }),
        jget(snapshot_view(reset_view(s)), "ok"@) == Some(JsonV::Bool(true)),
{
    reveal_strlit("ok");
}

// ---------------------------------------------------------------- the command line

/// Each of these names belongs to one option only.
proof fn lemma_alias_owners(o: Opt)
    ensures
        opt_matches(o, "full-auto"@) || opt_matches(o, "dangerously-full-access"@) ==> o
            == Opt::FullAuto,
        opt_matches(o, "codex-home"@) || opt_matches(o, "account-home"@) ==> o == Opt::CodexHome,
        opt_matches(o, "effort"@) || opt_matches(o, "reasoning-effort"@) ==> o == Opt::Effort,
        opt_matches(o, "timeout"@) || opt_matches(o, "timeout-secs"@) ==> o == Opt::Timeout,
{
    reveal_strlit("account-home");
    reveal_strlit("answer");
    reveal_strlit("answers-file");
    reveal_strlit("answers-json");
    reveal_strlit("approval-policy");
    reveal_strlit("codex-bin");
    reveal_strlit("codex-home");
    reveal_strlit("compact");
    reveal_strlit("cwd");
    reveal_strlit("dangerously-full-access");
    reveal_strlit("detach");
    reveal_strlit("effort");
    reveal_strlit("file");
    reveal_strlit("full");
    reveal_strlit("full-auto");
    reveal_strlit("include-events");
    reveal_strlit("interval-ms");
    reveal_strlit("jsonl");
    reveal_strlit("limit");
    reveal_strlit("log-dir");
    reveal_strlit("log-mode");
    reveal_strlit("metadata-only");
    reveal_strlit("method");
    reveal_strlit("model");
    reveal_strlit("no-open");
    reveal_strlit("objective");
    reveal_strlit("out");
    reveal_strlit("params");
    reveal_strlit("params-file");
    reveal_strlit("pick");
    reveal_strlit("prompt");
    reveal_strlit("prompt-file");
    reveal_strlit("question");
    reveal_strlit("question-mode");
    reveal_strlit("reasoning-effort");
    reveal_strlit("run-id");
    reveal_strlit("sandbox");
    reveal_strlit("session-socket");
    reveal_strlit("status");
    reveal_strlit("thread-id");
    reveal_strlit("threads");
    reveal_strlit("timeout");
    reveal_strlit("timeout-secs");
    reveal_strlit("token-budget");
    reveal_strlit("version-dir");
    reveal_strlit("viewer-html");
    assert("account-home"@.len() == 12);
    assert("answer"@.len() == 6);
    assert("answers-file"@.len() == 12);
    assert("answers-json"@.len() == 12);
    assert("approval-policy"@.len() == 15);
    assert("codex-bin"@.len() == 9);
    assert("codex-home"@.len() == 10);
    assert("compact"@.len() == 7);
    assert("cwd"@.len() == 3);
    assert("dangerously-full-access"@.len() == 23);
    assert("detach"@.len() == 6);
    assert("effort"@.len() == 6);
    assert("file"@.len() == 4);
    assert("full"@.len() == 4);
    assert("full-auto"@.len() == 9);
    assert("include-events"@.len() == 14);
    assert("interval-ms"@.len() == 11);
    assert("jsonl"@.len() == 5);
    assert("limit"@.len() == 5);
    assert("log-dir"@.len() == 7);
    assert("log-mode"@.len() == 8);
    assert("metadata-only"@.len() == 13);
    assert("method"@.len() == 6);
    assert("model"@.len() == 5);
    assert("no-open"@.len() == 7);
    assert("objective"@.len() == 9);
    assert("out"@.len() == 3);
    assert("params"@.len() == 6);
    assert("params-file"@.len() == 11);
    assert("pick"@.len() == 4);
    assert("prompt"@.len() == 6);
    assert("prompt-file"@.len() == 11);
    assert("question"@.len() == 8);
    assert("question-mode"@.len() == 13);
    assert("reasoning-effort"@.len() == 16);
    assert("run-id"@.len() == 6);
    assert("sandbox"@.len() == 7);
    assert("session-socket"@.len() == 14);
    assert("status"@.len() == 6);
    assert("thread-id"@.len() == 9);
    assert("threads"@.len() == 7);
    assert("timeout"@.len() == 7);
    assert("timeout-secs"@.len() == 12);
    assert("token-budget"@.len() == 12);
    assert("version-dir"@.len() == 11);
    assert("viewer-html"@.len() == 11);
    match o {
        Opt::CodexBin => {
            assert("codex-bin"@[0] != "full-auto"@[0]);
        },
        Opt::CodexHome => {
            assert("account-home"@[0] != "timeout-secs"@[0]);
        },
        Opt::LogDir => {
            assert("log-dir"@[0] != "timeout"@[0]);
        },
        Opt::LogMode => {},
        Opt::SessionSocket => {},
        Opt::Params => {
            assert("params"@[0] != "effort"@[0]);
        },
        Opt::ParamsFile => {},
        Opt::IncludeEvents => {},
        Opt::ThreadId => {
            assert("thread-id"@[0] != "full-auto"@[0]);
        },
        Opt::MetadataOnly => {},
        Opt::Compact => {
            assert("compact"@[0] != "timeout"@[0]);
        },
        Opt::RunId => {
            assert("run-id"@[0] != "effort"@[0]);
        },
        Opt::Out => {},
        Opt::ViewerHtml => {},
        Opt::NoOpen => {
            assert("no-open"@[0] != "timeout"@[0]);
        },
        Opt::Objective => {
            assert("objective"@[0] != "full-auto"@[0]);
        },
        Opt::TokenBudget => {
            assert("token-budget"@[0] != "account-home"@[0]);
            assert("token-budget"@[1] != "timeout-secs"@[1]);
        },
        Opt::Status => {
            assert("status"@[0] != "effort"@[0]);
        },
        Opt::Cwd => {},
        Opt::Sandbox => {
            assert("sandbox"@[0] != "timeout"@[0]);
        },
        Opt::ApprovalPolicy => {},
        Opt::FullAuto => {},
        Opt::Prompt => {
            assert("prompt"@[0] != "effort"@[0]);
        },
        Opt::PromptFile => {},
        Opt::QuestionMode => {},
        Opt::Effort => {},
        Opt::Model => {},
        Opt::Jsonl => {},
        Opt::Timeout => {
            assert("timeout-secs"@[0] != "account-home"@[0]);
        },
        Opt::Detach => {
            assert("detach"@[0] != "effort"@[0]);
        },
        Opt::VersionDir => {},
        Opt::Answer => {
            assert("answer"@[0] != "effort"@[0]);
        },
        Opt::AnswersJson => {
            assert("answers-json"@[1] != "account-home"@[1]);
            assert("answers-json"@[0] != "timeout-secs"@[0]);
        },
        Opt::AnswersFile => {
            assert("answers-file"@[1] != "account-home"@[1]);
            assert("answers-file"@[0] != "timeout-secs"@[0]);
        },
        Opt::Pick => {},
        Opt::Full => {},
        Opt::IntervalMs => {},
        Opt::Threads => {
            assert("threads"@[1] != "timeout"@[1]);
        },
        Opt::Limit => {},
        Opt::Question => {},
        Opt::Method => {
            assert("method"@[0] != "effort"@[0]);
        },
        Opt::File => {},
    }
}

/// An alias names the same option as the long name, for every command:
/// `--account-home` is `--codex-home`, `--dangerously-full-access` is `--full-auto`,
/// `--reasoning-effort` is `--effort` and `--timeout-secs` is `--timeout`.
pub proof fn law_option_aliases(c: Cmd, o: Opt)
    requires
        opt_alias(o) is Some,
    ensures
        find_opt(c, opt_alias(o)->0) == find_opt(c, opt_long(o)),
{
    let alias = opt_alias(o)->0;
    let long = opt_long(o);
    lemma_alias_owners(o);
    lemma_find_opt(c, alias);
    lemma_find_opt(c, long);
    assert(opt_matches(o, alias) && opt_matches(o, long));
    match find_opt(c, alias) {
        Some(x) => lemma_alias_owners(x),
        None => {},
    }
    match find_opt(c, long) {
        Some(x) => lemma_alias_owners(x),
        None => {},
    }
}

// ---------------------------------------------------------------- the viewer page

proof fn lemma_occurs_in_tail(u: Seq<char>, v: Seq<char>, a: Seq<char>, k: int)
    requires
        occurs_at(u + v, a, k),
        k >= u.len(),
    ensures
        occurs_at(v, a, k - u.len()),
{
    assert((u + v).subrange(k, k + a.len()) =~= v.subrange(k - u.len(), k - u.len() + a.len()));
}

proof fn lemma_occurs_in_skip(x: Seq<char>, a: Seq<char>, n: int, i: int)
    requires
        0 <= n <= x.len(),
        occurs_at(x.skip(n), a, i),
    ensures
        occurs_at(x, a, i + n),
{
    assert(x.skip(n).subrange(i, i + a.len()) =~= x.subrange(i + n, i + n + a.len()));
}

/// While the replacement text is not seen, `replaced` copies its input.
proof fn lemma_copied_prefix(x: Seq<char>, c: Seq<char>, d: Seq<char>, m: int)
    requires
        c.len() > 0,
        d.len() > 0,
        0 <= m <= replaced(x, c, d).len(),
        forall|j: int| 0 <= j < m ==> replaced(x, c, d)[j] != d[0],
    ensures
        m <= x.len(),
        replaced(x, c, d).take(m) == x.take(m),
    decreases m,
{
    if m > 0 {
        let y = replaced(x, c, d);
        if x.len() == 0 {
            assert(y.len() == 0);
        } else if occurs_at(x, c, 0) {
            assert(y == d + replaced(x.skip(c.len() as int), c, d));
            assert(y[0] == d[0]);
        } else {
            let r = replaced(x.skip(1), c, d);
            assert(y == seq![x[0]] + r);
            assert forall|j: int| 0 <= j < m - 1 implies r[j] != d[0] by {
                assert(r[j] == y[j + 1]);
            }
            lemma_copied_prefix(x.skip(1), c, d, m - 1);
            assert(y.take(m) =~= seq![x[0]] + r.take(m - 1));
            assert(x.take(m) =~= seq![x[0]] + x.skip(1).take(m - 1));
        }
    }
}

/// Replacing `c` by `d` leaves no occurrence of `a` when `d` cannot start or hold one and the
/// input has none left to copy (there is none, or `a` is what is replaced).
proof fn lemma_replaced_avoids(x: Seq<char>, c: Seq<char>, d: Seq<char>, a: Seq<char>)
    requires
        c.len() > 0,
        a.len() >= 2,
        d.len() >= 2,
        d[0] == a[0],
        d[1] != a[1],
        forall|j: int| 1 <= j < d.len() ==> #[trigger] d[j] != a[0],
        forall|j: int| 1 <= j < a.len() ==> #[trigger] a[j] != a[0],
        c == a || forall|i: int| !occurs_at(x, a, i),
    ensures
        forall|k: int| !occurs_at(replaced(x, c, d), a, k),
    decreases x.len(),
{
    let y = replaced(x, c, d);
    if x.len() == 0 {
        assert(y.len() == 0);
    } else {
        let n: int = if occurs_at(x, c, 0) { c.len() as int } else { 1 };
        let x2 = x.skip(n);
        if c != a {
            assert forall|i: int| !occurs_at(x2, a, i) by {
                if occurs_at(x2, a, i) {
                    lemma_occurs_in_skip(x, a, n, i);
                }
            }
        }
        lemma_replaced_avoids(x2, c, d, a);
        let r = replaced(x2, c, d);
        if occurs_at(x, c, 0) {
            assert(y == d + r);
            assert forall|k: int| !occurs_at(y, a, k) by {
                if occurs_at(y, a, k) {
                    if k >= d.len() {
                        lemma_occurs_in_tail(d, r, a, k);
                    } else if k == 0 {
                        assert(y.subrange(0, a.len() as int)[1] == a[1]);
                        assert(y[1] == d[1]);
                    } else {
                        assert(y.subrange(k, k + a.len())[0] == a[0]);
                        assert(y[k] == d[k]);
                    }
                }
            }
        } else {
            assert(y == seq![x[0]] + r);
            assert forall|k: int| !occurs_at(y, a, k) by {
                if occurs_at(y, a, k) {
                    if k >= 1 {
                        lemma_occurs_in_tail(seq![x[0]], r, a, k);
                    } else {
                        let m = a.len() - 1;
                        assert forall|j: int| 0 <= j < m implies r[j] != d[0] by {
                            assert(r[j] == y[j + 1]);
                            assert(y.subrange(0, a.len() as int)[j + 1] == a[j + 1]);
                        }
                        lemma_copied_prefix(x2, c, d, m);
                        assert(x.subrange(0, a.len() as int) =~= y.subrange(0, a.len() as int)) by {
                            assert(y.take(a.len() as int) =~= seq![x[0]] + r.take(m));
                            assert(x.take(a.len() as int) =~= seq![x[0]] + x2.take(m));
                        }
                        assert(occurs_at(x, a, 0));
                    }
                }
            }
        }
    }
}

/// The session text written into the viewer page cannot end its `<script>` element or open an
/// HTML comment: the script-safe literal holds no `</script` and no `<!--`.
pub proof fn law_script_safe(literal: Seq<char>)
    ensures
        forall|k: int| !occurs_at(script_safe_text(literal), "</script"@, k),
        forall|k: int| !occurs_at(script_safe_text(literal), "<!--"@, k),
{
    reveal_strlit("</script");
    reveal_strlit("<\\/script");
    reveal_strlit("<!--");
    reveal_strlit("<\\!--");
    let a = "</script"@;
    let b = "<\\/script"@;
    let c = "<!--"@;
    let d = "<\\!--"@;
    assert forall|j: int| 1 <= j < a.len() implies #[trigger] a[j] != a[0] by {}
    assert forall|j: int| 1 <= j < b.len() implies #[trigger] b[j] != a[0] by {}
    assert forall|j: int| 1 <= j < c.len() implies #[trigger] c[j] != c[0] by {}
    assert forall|j: int| 1 <= j < d.len() implies #[trigger] d[j] != a[0] by {}
    lemma_replaced_avoids(literal, a, b, a);
    let once = replaced(literal, a, b);
    lemma_replaced_avoids(once, c, d, a);
    lemma_replaced_avoids(once, c, d, c);
}

// ---------------------------------------------------------------- proposed plans

/// A tag whose first character occurs nowhere else in it cannot start inside `u` and run into
/// `tag`, so when `u` holds no occurrence the first one in `u + tag + w` follows `u`.
proof fn lemma_first_after(u: Seq<char>, tag: Seq<char>, w: Seq<char>)
    requires
        tag.len() >= 1,
        forall|j: int| 1 <= j < tag.len() ==> #[trigger] tag[j] != tag[0],
        forall|i: int| !occurs_at(u, tag, i),
    ensures
        first_occurrence(u + tag + w, tag) == Some(u.len() as int),
{
    let s = u + tag + w;
    assert(s.subrange(u.len() as int, (u.len() + tag.len()) as int) =~= tag);
    assert forall|j: int| 0 <= j < u.len() implies !occurs_at(s, tag, j) by {
        if occurs_at(s, tag, j) {
            if j + tag.len() <= u.len() {
                assert(s.subrange(j, j + tag.len()) =~= u.subrange(j, j + tag.len()));
                assert(occurs_at(u, tag, j));
            } else {
                let t = u.len() - j;
                assert(s.subrange(j, j + tag.len())[t] == tag[t]);
                assert(s[u.len() as int] == tag[0]);
            }
        }
    }
    lemma_first_occurrence_is(s, tag, u.len() as int);
}

/// A `<proposed_plan>` block is found: when the text before it holds no opening tag and the
/// block holds no closing tag, the plan is the block's trimmed text.
pub proof fn law_proposed_plan_found(before: Seq<char>, body: Seq<char>, after: Seq<char>)
    requires
        forall|i: int| !occurs_at(before, "<proposed_plan>"@, i),
        forall|i: int| !occurs_at(body, "</proposed_plan>"@, i),
    ensures
        proposed_plan(before + "<proposed_plan>"@ + body + "</proposed_plan>"@ + after) == Some(
            trimmed(body),
        ),
{
    reveal_strlit("<proposed_plan>");
    reveal_strlit("</proposed_plan>");
    let open = "<proposed_plan>"@;
    let close = "</proposed_plan>"@;
    assert forall|j: int| 1 <= j < open.len() implies #[trigger] open[j] != open[0] by {}
    assert forall|j: int| 1 <= j < close.len() implies #[trigger] close[j] != close[0] by {}
    let rest = body + close + after;
    let text = before + open + body + close + after;
    assert(text =~= before + open + rest);
    lemma_first_after(before, open, rest);
    assert(text.skip((before.len() + open.len()) as int) =~= rest);
    lemma_first_after(body, close, after);
    assert(rest.take(body.len() as int) =~= body);
}

// ---------------------------------------------------------------- shell words

/// How a POSIX shell reads a word made of plain characters, backslash escapes and single-quoted
/// parts: outside quotes a backslash keeps the character after it and a `'` opens a part that
/// runs, taken as it is, to the next `'`.
pub open spec fn shell_read(w: Seq<char>, quoted: bool) -> Seq<char>
    decreases w.len(),
{
    if w.len() == 0 {
        Seq::empty()
    } else if quoted {
        if w[0] == '\'' {
            shell_read(w.drop_first(), false)
        } else {
            seq![w[0]] + shell_read(w.drop_first(), true)
        }
    } else if w[0] == '\'' {
        shell_read(w.drop_first(), true)
    } else if w[0] == '\\' && w.len() >= 2 {
        seq![w[1]] + shell_read(w.skip(2), false)
    } else {
        seq![w[0]] + shell_read(w.drop_first(), false)
    }
}

proof fn lemma_read_plain(s: Seq<char>)
    requires
        forall|i: int| 0 <= i < s.len() ==> shell_safe(#[trigger] s[i]),
    ensures
        shell_read(s, false) == s,
    decreases s.len(),
{
    if s.len() > 0 {
        assert(shell_safe(s[0]));
        let t = s.drop_first();
        assert forall|i: int| 0 <= i < t.len() implies shell_safe(#[trigger] t[i]) by {
            assert(t[i] == s[i + 1]);
        }
        lemma_read_plain(t);
        assert(s =~= seq![s[0]] + t);
    }
}

proof fn lemma_read_quoted(s: Seq<char>, tail: Seq<char>)
    ensures
        shell_read(
            replaced(s, seq!['\''], seq!['\'', '\\', '\'', '\'']) + seq!['\''] + tail,
            true,
        ) == s + shell_read(tail, false),
    decreases s.len(),
{
    let q = seq!['\''];
    let x = seq!['\'', '\\', '\'', '\''];
    let w = replaced(s, q, x) + q + tail;
    if s.len() == 0 {
        assert(w =~= q + tail);
        assert(w.drop_first() =~= tail);
        assert(w[0] == '\'');
        assert(shell_read(w, true) == shell_read(w.drop_first(), false));
        assert(s + shell_read(tail, false) =~= shell_read(tail, false));
    } else {
        let rest = s.skip(1);
        lemma_read_quoted(rest, tail);
        let inner = replaced(rest, q, x) + q + tail;
        if s[0] == '\'' {
            assert(occurs_at(s, q, 0)) by {
                assert(s.subrange(0, 1) =~= q);
            }
            assert(w =~= x + inner);
            let w1 = w.drop_first();
            assert(w1 =~= seq!['\\', '\'', '\''] + inner);
            let w2 = w1.skip(2);
            assert(w2 =~= seq!['\''] + inner);
            assert(w2.drop_first() =~= inner);
            assert(w[0] == '\'');
            assert(shell_read(w, true) == shell_read(w1, false));
            assert(w1[0] == '\\' && w1[1] == '\'');
            assert(shell_read(w1, false) == seq!['\''] + shell_read(w2, false));
            assert(w2[0] == '\'');
            assert(shell_read(w2, false) == shell_read(inner, true));
            assert(s =~= seq!['\''] + rest);
            assert(s + shell_read(tail, false) =~= seq!['\''] + (rest + shell_read(tail, false)));
        } else {
            assert(!occurs_at(s, q, 0)) by {
                assert(s.subrange(0, 1)[0] == s[0]);
            }
            assert(w =~= seq![s[0]] + inner);
            assert(w.drop_first() =~= inner);
            assert(w[0] == s[0]);
            assert(shell_read(w, true) == seq![s[0]] + shell_read(inner, true));
            assert(s =~= seq![s[0]] + rest);
            assert(s + shell_read(tail, false) =~= seq![s[0]] + (rest + shell_read(tail, false)));
        }
    }
}

/// A value quoted for the shell reads back as the value: the daemon and resume commands hand
/// paths and ids to the shell unchanged.
pub proof fn law_shell_quote_reads_back(s: Seq<char>)
    ensures
        shell_read(shell_quoted(s), false) == s,
{
    if forall|i: int| 0 <= i < s.len() ==> shell_safe(#[trigger] s[i]) {
        lemma_read_plain(s);
    } else {
        let q = seq!['\''];
        let x = seq!['\'', '\\', '\'', '\''];
        let w = q + replaced(s, q, x) + q;
        assert(w.drop_first() =~= replaced(s, q, x) + q + Seq::<char>::empty());
        lemma_read_quoted(s, Seq::<char>::empty());
        assert(s + Seq::<char>::empty() =~= s);
    }
}

// ---------------------------------------------------------------- options, turns and answers

/// The reasoning effort given on the command line is the one used: an `--effort` (or
/// `--reasoning-effort`) value that names an effort decodes to that effort, and the protocol
/// name of each effort (`high`, ...) names it.
pub proof fn law_effort_option_read(occs: Seq<(Opt, Seq<char>)>, v: Seq<char>, e: Effort)
    requires
        value_of(occs, Opt::Effort) == Some(v),
    ensures
        effort_named(v) == Some(e) ==> effort_in(occs) == e,
        v == effort_protocol(e) ==> effort_in(occs) == e,
{
    law_setting_names_round_trip(SandboxMode::ReadOnly, ApprovalPolicy::Never, e);
}

/// An `error` notification fails the run: the pump pauses, the run is failed, the message is
/// kept last among its errors, its warnings are untouched, and its snapshot is not `ok`.
pub proof fn law_error_notification_fails(s: RunStateV, turn_request: u64, m: JsonV)
    requires
        !answers_request(m, turn_request),
        method_of(m) == Some("error"@),
    ensures
        run_step(s, turn_request, m).1 == Pump::Pause,
        run_step(s, turn_request, m).0.status == RunStatus::Failed,
        run_step(s, turn_request, m).0.errors == s.errors.push(m),
        run_step(s, turn_request, m).0.warnings == s.warnings,
        snapshot_view(run_step(s, turn_request, m).0) matches JsonV::Object(fields) && fields[0]
            == ("ok"@, JsonV::Bool(false)),
{
    reveal_strlit("error");
    reveal_strlit("item/tool/requestUserInput");
    reveal_strlit("item/completed");
    reveal_strlit("item/agentMessage/delta");
    reveal_strlit("thread/tokenUsage/updated");
    reveal_strlit("turn/completed");
    assert("error"@[0] != "item/tool/requestUserInput"@[0]);
    assert("error"@[0] != "item/completed"@[0]);
    assert("error"@[0] != "item/agentMessage/delta"@[0]);
    assert("error"@[0] != "thread/tokenUsage/updated"@[0]);
    assert("error"@[0] != "turn/completed"@[0]);
}

/// A completed plan item is recorded: its text is added last to the turn's plans, and nothing
/// else of the turn changes.
pub proof fn law_plan_item_recorded(r: TurnRecordV, m: JsonV, t: Seq<char>)
    requires
        item_type(completed_item(m)) == "plan"@,
        jstr(jget(completed_item(m), "text"@)) == Some(t),
    ensures
        collect_item_effect(r, m).plans == r.plans.push(t),
        collect_item_effect(r, m).agent_messages == r.agent_messages,
        collect_item_effect(r, m).items == r.items,
{
}

/// During a session turn, an `item/completed` notification of a plan adds the plan's text to
/// the run's plans and the pump goes on.
pub proof fn law_session_plan_recorded(s: RunStateV, turn_request: u64, m: JsonV, t: Seq<char>)
    requires
        !answers_request(m, turn_request),
        method_of(m) == Some("item/completed"@),
        item_type(completed_item(m)) == "plan"@,
        jstr(jget(completed_item(m), "text"@)) == Some(t),
    ensures
        run_step(s, turn_request, m).1 == Pump::Continue,
        run_step(s, turn_request, m).0.record.plans == s.record.plans.push(t),
        run_step(s, turn_request, m).0.status == s.status,
{
    reveal_strlit("item/completed");
    reveal_strlit("item/tool/requestUserInput");
    assert("item/completed"@[5] != "item/tool/requestUserInput"@[5]);
    law_plan_item_recorded(s.record, m, t);
}

/// The automatic choice answers every question that offers an option: it is one of the
/// question's labels; with `auto-recommended` it is the first recommended label, and the first
/// label where none is recommended; with `auto-first` it is the first label. A question without
/// options gets no choice.
pub proof fn law_auto_choice(q: JsonV, recommended: bool)
    ensures
        auto_choice(q, recommended) is Some <==> option_labels(q).len() > 0,
        auto_choice(q, recommended) matches Some(l) ==> option_labels(q).contains(l),
        option_labels(q).len() > 0 && (!recommended || forall|i: int|
            0 <= i < option_labels(q).len() ==> !is_recommended(#[trigger] option_labels(q)[i]))
            ==> auto_choice(q, recommended) == Some(option_labels(q)[0]),
        recommended && (exists|i: int|
            0 <= i < option_labels(q).len() && is_recommended(#[trigger] option_labels(q)[i]))
            ==> (auto_choice(q, recommended) matches Some(l) && is_recommended(l) && exists|k: int|
            0 <= k < option_labels(q).len() && option_labels(q)[k] == l && forall|j: int|
                0 <= j < k ==> !is_recommended(#[trigger] option_labels(q)[j])),
{
    lemma_first_recommended(option_labels(q));
}

proof fn lemma_first_recommended(labels: Seq<Seq<char>>)
    ensures
        (exists|i: int| 0 <= i < labels.len() && is_recommended(#[trigger] labels[i]))
            <==> first_recommended(labels) is Some,
        first_recommended(labels) matches Some(l) ==> (is_recommended(l) && exists|k: int|
            0 <= k < labels.len() && labels[k] == l && forall|j: int|
                0 <= j < k ==> !is_recommended(#[trigger] labels[j])),
    decreases labels.len(),
{
    if labels.len() > 0 {
        let rest = labels.drop_first();
        lemma_first_recommended(rest);
        if is_recommended(labels[0]) {
            assert(labels[0] == labels[0]);
            assert(forall|j: int| 0 <= j < 0 ==> !is_recommended(#[trigger] labels[j]));
        } else {
            if exists|i: int| 0 <= i < labels.len() && is_recommended(#[trigger] labels[i]) {
                let i = choose|i: int| 0 <= i < labels.len() && is_recommended(#[trigger] labels[i]);
                assert(i != 0);
                assert(rest[i - 1] == labels[i]);
            }
            if exists|i: int| 0 <= i < rest.len() && is_recommended(#[trigger] rest[i]) {
                let i = choose|i: int| 0 <= i < rest.len() && is_recommended(#[trigger] rest[i]);
                assert(labels[i + 1] == rest[i]);
            }
            if let Some(l) = first_recommended(rest) {
                let k = choose|k: int| 0 <= k < rest.len() && rest[k] == l && forall|j: int|
                    0 <= j < k ==> !is_recommended(#[trigger] rest[j]);
                assert(labels[k + 1] == l);
                assert forall|j: int| 0 <= j < k + 1 implies !is_recommended(#[trigger] labels[j]) by {
                    if j > 0 {
                        assert(labels[j] == rest[j - 1]);
                    }
                }
            }
        }
    }
}

/// The compact messages of a thread are those of every turn, turn after turn: the messages of
/// a run of turns followed by another are the messages of the first run followed by those of
/// the second, and a single turn gives the messages of its own items, under its own id.
pub proof fn law_thread_messages_every_turn(a: Seq<JsonV>, b: Seq<JsonV>, t: JsonV)
    ensures
        thread_messages(a + b) == thread_messages(a) + thread_messages(b),
        thread_messages(seq![t]) == item_messages(turn_id_of(t), turn_items(t)),
        thread_messages(a.push(t)) == thread_messages(a) + item_messages(turn_id_of(t), turn_items(t)),
    decreases b.len(),
{
    assert(seq![t].drop_last() =~= Seq::<JsonV>::empty());
    assert(seq![t].last() == t);
    assert(thread_messages(seq![t].drop_last()) == Seq::<JsonV>::empty());
    assert(Seq::<JsonV>::empty() + item_messages(turn_id_of(t), turn_items(t)) =~= item_messages(
        turn_id_of(t),
        turn_items(t),
    ));
    assert(a.push(t).drop_last() =~= a);
    if b.len() == 0 {
        assert(a + b =~= a);
        assert(thread_messages(a) + Seq::<JsonV>::empty() =~= thread_messages(a));
    } else {
        law_thread_messages_every_turn(a, b.drop_last(), t);
        assert((a + b).drop_last() =~= a + b.drop_last());
        assert((a + b).last() == b.last());
        assert(thread_messages(a + b) == thread_messages(a + b.drop_last()) + item_messages(
            turn_id_of(b.last()),
            turn_items(b.last()),
        ));
        assert(thread_messages(a) + thread_messages(b.drop_last()) + item_messages(
            turn_id_of(b.last()),
            turn_items(b.last()),
        ) =~= thread_messages(a) + (thread_messages(b.drop_last()) + item_messages(
            turn_id_of(b.last()),
            turn_items(b.last()),
        )));
    }
}

/// Each setting given on the command line is the one used, and an option left out takes its
/// documented default: `medium` effort, `read-only` sandbox, `never` approval, `summary` logs,
/// `auto-recommended` questions, no budget and no timeout, a 1000 ms interval, 20 threads and
/// the `codex` executable.
pub proof fn law_given_settings_read(occs: Seq<(Opt, Seq<char>)>, v: Seq<char>)
    ensures
        value_of(occs, Opt::Sandbox) == Some(v) && sandbox_named(v) is Some ==> sandbox_in(occs)
            == sandbox_named(v)->Some_0,
        value_of(occs, Opt::ApprovalPolicy) == Some(v) && approval_named(v) is Some
            ==> approval_in(occs) == approval_named(v)->Some_0,
        value_of(occs, Opt::LogMode) == Some(v) && log_mode_named(v) is Some ==> log_mode_in(occs)
            == log_mode_named(v)->Some_0,
        value_of(occs, Opt::QuestionMode) == Some(v) && question_mode_named(v) is Some
            ==> question_mode_in(occs) == question_mode_named(v)->Some_0,
        value_of(occs, Opt::Status) == Some(v) ==> status_in(occs) == goal_status_named(v),
        value_of(occs, Opt::TokenBudget) == Some(v) && limit_meaning(v) is Ok ==> budget_in(occs)
            == limit_meaning(v)->Ok_0,
        value_of(occs, Opt::Timeout) == Some(v) && limit_meaning(v) is Ok ==> timeout_in(occs)
            == limit_meaning(v)->Ok_0,
        value_of(occs, Opt::IntervalMs) == Some(v) && parsed_u64(v) is Some ==> interval_in(occs)
            == parsed_u64(v)->Some_0,
        value_of(occs, Opt::CodexBin) == Some(v) ==> codex_bin_in(occs) == v,
        value_of(occs, Opt::Effort) is None ==> effort_in(occs) == Effort::Medium,
        value_of(occs, Opt::Sandbox) is None ==> sandbox_in(occs) == SandboxMode::ReadOnly,
        value_of(occs, Opt::ApprovalPolicy) is None ==> approval_in(occs) == ApprovalPolicy::Never,
        value_of(occs, Opt::LogMode) is None ==> log_mode_in(occs) == LogMode::Summary,
        value_of(occs, Opt::QuestionMode) is None ==> question_mode_in(occs)
            == QuestionMode::AutoRecommended,
        value_of(occs, Opt::TokenBudget) is None ==> budget_in(occs) is None,
        value_of(occs, Opt::Timeout) is None ==> timeout_in(occs) is None,
        value_of(occs, Opt::IntervalMs) is None ==> interval_in(occs) == 1000,
        value_of(occs, Opt::Limit) is None ==> limit_in(occs) == 20,
        value_of(occs, Opt::CodexBin) is None ==> codex_bin_in(occs) == "codex"@,
{
}

/// A warning is kept and the turn goes on: the message is added last to the run's warnings,
/// and its status and errors are untouched.
pub proof fn law_warning_continues(s: RunStateV, turn_request: u64, m: JsonV)
    requires
        !answers_request(m, turn_request),
        method_of(m) == Some("warning"@) || method_of(m) == Some("guardianWarning"@),
    ensures
        run_step(s, turn_request, m).1 == Pump::Continue,
        run_step(s, turn_request, m).0.status == s.status,
        run_step(s, turn_request, m).0.warnings == s.warnings.push(m),
        run_step(s, turn_request, m).0.errors == s.errors,
{
    reveal_strlit("warning");
    reveal_strlit("guardianWarning");
    reveal_strlit("error");
    reveal_strlit("item/tool/requestUserInput");
    reveal_strlit("item/completed");
    reveal_strlit("item/agentMessage/delta");
    reveal_strlit("thread/tokenUsage/updated");
    reveal_strlit("turn/completed");
    assert("warning"@[0] != "item/tool/requestUserInput"@[0]);
    assert("warning"@[0] != "item/completed"@[0]);
    assert("warning"@[0] != "item/agentMessage/delta"@[0]);
    assert("warning"@[0] != "thread/tokenUsage/updated"@[0]);
    assert("warning"@[0] != "turn/completed"@[0]);
    assert("warning"@[0] != "error"@[0]);
    assert("guardianWarning"@[0] != "item/tool/requestUserInput"@[0]);
    assert("guardianWarning"@[0] != "item/completed"@[0]);
    assert("guardianWarning"@[0] != "item/agentMessage/delta"@[0]);
    assert("guardianWarning"@[0] != "thread/tokenUsage/updated"@[0]);
    assert("guardianWarning"@[0] != "turn/completed"@[0]);
    assert("guardianWarning"@[0] != "error"@[0]);
}

/// A completed agent message is recorded: its text is added last to the messages, and a
/// `<proposed_plan>` block in it is added last to the plans.
pub proof fn law_agent_message_recorded(r: TurnRecordV, m: JsonV, t: Seq<char>)
    requires
        item_type(completed_item(m)) == "agentMessage"@ || item_type(completed_item(m))
            == "agent_message"@,
        jstr(jget(completed_item(m), "text"@)) == Some(t),
    ensures
        collect_item_effect(r, m).agent_messages == r.agent_messages.push(t),
        collect_item_effect(r, m).plans == match proposed_plan(t) {
            Some(p) => r.plans.push(p),
            None => r.plans,
        },
        collect_item_effect(r, m).items == r.items,
{
    reveal_strlit("plan");
    reveal_strlit("agentMessage");
    reveal_strlit("agent_message");
    assert("plan"@[0] != "agentMessage"@[0]);
    assert("plan"@[0] != "agent_message"@[0]);
}

/// Any other completed item is kept last among the turn's items, with plans and messages
/// untouched.
pub proof fn law_other_item_recorded(r: TurnRecordV, m: JsonV)
    requires
        item_type(completed_item(m)) != "plan"@,
        item_type(completed_item(m)) != "agentMessage"@,
        item_type(completed_item(m)) != "agent_message"@,
    ensures
        collect_item_effect(r, m).items == r.items.push(completed_item(m)),
        collect_item_effect(r, m).plans == r.plans,
        collect_item_effect(r, m).agent_messages == r.agent_messages,
{
}

/// The messages of a turn are those of every item in order: those of a run of items followed by
/// another are the first run's followed by the second's, and one item gives its text under the
/// turn's id and the item's type, or nothing where it carries no message text.
pub proof fn law_item_messages_every_item(tid: Seq<char>, a: Seq<JsonV>, b: Seq<JsonV>, item: JsonV)
    ensures
        item_messages(tid, a + b) == item_messages(tid, a) + item_messages(tid, b),
        item_messages(tid, seq![item]) == match item_text(item) {
            Some(t) => seq![message_view(tid, item_type(item), t)],
            None => Seq::<JsonV>::empty(),
        },
    decreases b.len(),
{
    assert(seq![item].drop_last() =~= Seq::<JsonV>::empty());
    assert(seq![item].last() == item);
    assert(item_messages(tid, seq![item].drop_last()) == Seq::<JsonV>::empty());
    assert(Seq::<JsonV>::empty().push(message_view(tid, item_type(item), item_text(item)->Some_0))
        =~= seq![message_view(tid, item_type(item), item_text(item)->Some_0)]);
    if b.len() == 0 {
        assert(a + b =~= a);
        assert(item_messages(tid, a) + Seq::<JsonV>::empty() =~= item_messages(tid, a));
    } else {
        law_item_messages_every_item(tid, a, b.drop_last(), item);
        assert((a + b).drop_last() =~= a + b.drop_last());
        assert((a + b).last() == b.last());
        let x = item_messages(tid, a);
        let y = item_messages(tid, b.drop_last());
        match item_text(b.last()) {
            Some(t) => {
                let e = message_view(tid, item_type(b.last()), t);
                assert((x + y).push(e) =~= x + y.push(e));
            },
            None => {},
        }
    }
}

} // verus!
