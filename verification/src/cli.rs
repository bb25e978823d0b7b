use vstd::prelude::*;
use vstd::string::*;

use crate::argv::{
    CliError, CliErrorV, Scan, ScanV, has_occ, has_occ_exec, occs_view, read_args,
    read_command_line,
};
use crate::grammar::{Cmd, Opt};
use crate::json::opt_str;
use crate::settings::{
    ApprovalPolicy, Effort, GoalStatus, LogMode, QuestionMode, RunTimeout, RuntimeArgs,
    SandboxMode, TokenBudget, approval_from_name, approval_named, effort_from_name, effort_named,
    goal_status_from_name, goal_status_named, limit_meaning, log_mode_from_name, log_mode_named,
    parse_limit, question_mode_from_name, question_mode_named, sandbox_from_name, sandbox_named,
};
use crate::text::{owned, parse_u64, parsed_u64, string_of};

verus! {

// ---------------------------------------------------------------- what the options hold

/// The value of the first occurrence of `o`.
pub open spec fn value_of(occs: Seq<(Opt, Seq<char>)>, o: Opt) -> Option<Seq<char>>
    decreases occs.len(),
{
    if occs.len() == 0 {
        None
    } else if occs[0].0 == o {
        Some(occs[0].1)
    } else {
        value_of(occs.drop_first(), o)
    }
}

/// The values of every occurrence of `o`, in order.
pub open spec fn values_of(occs: Seq<(Opt, Seq<char>)>, o: Opt) -> Seq<Seq<char>>
    decreases occs.len(),
{
    if occs.len() == 0 {
        Seq::empty()
    } else {
        (if occs[0].0 == o { seq![occs[0].1] } else { Seq::empty() }) + values_of(
            occs.drop_first(),
            o,
        )
    }
}

/// The value of a required argument (checked to be present before decoding).
pub open spec fn required_text(occs: Seq<(Opt, Seq<char>)>, o: Opt) -> Seq<char> {
    match value_of(occs, o) {
        Some(v) => v,
        None => Seq::empty(),
    }
}

pub open spec fn strings_view(v: Seq<String>) -> Seq<Seq<char>> {
    v.map_values(|s: String| s@)
}

/// The count given with `--token-budget`; none for no limit.
pub open spec fn budget_in(occs: Seq<(Opt, Seq<char>)>) -> Option<u64> {
    match value_of(occs, Opt::TokenBudget) {
        Some(v) => match limit_meaning(v) {
            Ok(l) => l,
            _ => None,
        },
        None => None,
    }
}

/// The seconds given with `--timeout`; none for no limit.
pub open spec fn timeout_in(occs: Seq<(Opt, Seq<char>)>) -> Option<u64> {
    match value_of(occs, Opt::Timeout) {
        Some(v) => match limit_meaning(v) {
            Ok(l) => l,
            _ => None,
        },
        None => None,
    }
}

pub open spec fn status_in(occs: Seq<(Opt, Seq<char>)>) -> Option<GoalStatus> {
    match value_of(occs, Opt::Status) {
        Some(v) => goal_status_named(v),
        None => None,
    }
}

pub open spec fn question_mode_opt_in(occs: Seq<(Opt, Seq<char>)>) -> Option<QuestionMode> {
    match value_of(occs, Opt::QuestionMode) {
        Some(v) => question_mode_named(v),
        None => None,
    }
}

/// The question mode; `auto-recommended` by default.
pub open spec fn question_mode_in(occs: Seq<(Opt, Seq<char>)>) -> QuestionMode {
    match question_mode_opt_in(occs) {
        Some(m) => m,
        None => QuestionMode::AutoRecommended,
    }
}

/// The reasoning effort; `medium` by default.
pub open spec fn effort_in(occs: Seq<(Opt, Seq<char>)>) -> Effort {
    match value_of(occs, Opt::Effort) {
        Some(v) => match effort_named(v) {
            Some(e) => e,
            None => Effort::Medium,
        },
        None => Effort::Medium,
    }
}

/// The sandbox mode; `read-only` by default.
pub open spec fn sandbox_in(occs: Seq<(Opt, Seq<char>)>) -> SandboxMode {
    match value_of(occs, Opt::Sandbox) {
        Some(v) => match sandbox_named(v) {
            Some(m) => m,
            None => SandboxMode::ReadOnly,
        },
        None => SandboxMode::ReadOnly,
    }
}

/// The approval policy; `never` by default.
pub open spec fn approval_in(occs: Seq<(Opt, Seq<char>)>) -> ApprovalPolicy {
    match value_of(occs, Opt::ApprovalPolicy) {
        Some(v) => match approval_named(v) {
            Some(p) => p,
            None => ApprovalPolicy::Never,
        },
        None => ApprovalPolicy::Never,
    }
}

/// The log mode; `summary` by default.
pub open spec fn log_mode_in(occs: Seq<(Opt, Seq<char>)>) -> LogMode {
    match value_of(occs, Opt::LogMode) {
        Some(v) => match log_mode_named(v) {
            Some(m) => m,
            None => LogMode::Summary,
        },
        None => LogMode::Summary,
    }
}

/// The polling interval in milliseconds; 1000 by default.
pub open spec fn interval_in(occs: Seq<(Opt, Seq<char>)>) -> u64 {
    match value_of(occs, Opt::IntervalMs) {
        Some(v) => match parsed_u64(v) {
            Some(n) => n,
            None => 1000,
        },
        None => 1000,
    }
}

/// The maximum number of persisted threads; 20 by default.
pub open spec fn limit_in(occs: Seq<(Opt, Seq<char>)>) -> usize {
    match value_of(occs, Opt::Limit) {
        Some(v) => match parsed_u64(v) {
            Some(n) => if n <= usize::MAX {
                n as usize
            } else {
                20
            },
            None => 20,
        },
        None => 20,
    }
}

/// The Codex executable; `codex` by default.
pub open spec fn codex_bin_in(occs: Seq<(Opt, Seq<char>)>) -> Seq<char> {
    match value_of(occs, Opt::CodexBin) {
        Some(v) => v,
        None => "codex"@,
    }
}

// ---------------------------------------------------------------- reading them

fn value_index(occs: &Vec<(Opt, Vec<char>)>, o: Opt) -> (r: Option<usize>)
    ensures
        match r {
            Some(i) => i < occs.len() && value_of(occs_view(occs@), o) == Some(occs@[i as int].1@),
            None => value_of(occs_view(occs@), o) is None,
        },
{
    let ghost m = occs_view(occs@);
    let mut i: usize = 0;
    assert(m.skip(0) =~= m);
    while i < occs.len()
        invariant
            i <= occs.len(),
            m == occs_view(occs@),
            value_of(m, o) == value_of(m.skip(i as int), o),
        decreases occs.len() - i,
    {
        assert(m.skip(i as int).drop_first() =~= m.skip(i + 1));
        assert(m.skip(i as int)[0] == (occs@[i as int].0, occs@[i as int].1@));
        if occs[i].0 == o {
            return Some(i);
        }
        i = i + 1;
    }
    None
}

/// The value of the first occurrence of `o`, as a string.
pub fn text_of(occs: &Vec<(Opt, Vec<char>)>, o: Opt) -> (r: Option<String>)
    ensures
        opt_str(r) == value_of(occs_view(occs@), o),
{
    match value_index(occs, o) {
        Some(i) => Some(string_of(occs[i].1.as_slice())),
        None => None,
    }
}

/// The value of a required argument.
pub fn required_text_exec(occs: &Vec<(Opt, Vec<char>)>, o: Opt) -> (r: String)
    ensures
        r@ == required_text(occs_view(occs@), o),
{
    match text_of(occs, o) {
        Some(s) => s,
        None => String::new(),
    }
}

/// The values of every occurrence of `o`.
pub fn texts_of(occs: &Vec<(Opt, Vec<char>)>, o: Opt) -> (r: Vec<String>)
    ensures
        strings_view(r@) == values_of(occs_view(occs@), o),
{
    let ghost m = occs_view(occs@);
    let mut out: Vec<String> = Vec::new();
    let mut i: usize = 0;
    assert(m.skip(0) =~= m);
    assert(strings_view(out@) =~= Seq::<Seq<char>>::empty());
    while i < occs.len()
        invariant
            i <= occs.len(),
            m == occs_view(occs@),
            values_of(m, o) == strings_view(out@) + values_of(m.skip(i as int), o),
        decreases occs.len() - i,
    {
        assert(m.skip(i as int).drop_first() =~= m.skip(i + 1));
        assert(m.skip(i as int)[0] == (occs@[i as int].0, occs@[i as int].1@));
        let ghost before = strings_view(out@);
        if occs[i].0 == o {
            let s = string_of(occs[i].1.as_slice());
            out.push(s);
            assert(strings_view(out@) =~= before + seq![occs@[i as int].1@]);
        } else {
            assert(strings_view(out@) =~= before + Seq::<Seq<char>>::empty());
        }
        i = i + 1;
    }
    assert(values_of(m.skip(i as int), o) =~= Seq::<Seq<char>>::empty());
    assert(strings_view(out@) + Seq::<Seq<char>>::empty() =~= strings_view(out@));
    out
}

fn budget_exec(occs: &Vec<(Opt, Vec<char>)>) -> (r: TokenBudget)
    ensures
        r.as_limit() == budget_in(occs_view(occs@)),
{
    match text_of(occs, Opt::TokenBudget) {
        Some(v) => match parse_limit(v.as_str()) {
            Ok(l) => TokenBudget::from_limit(l),
            _ => TokenBudget::Unlimited,
        },
        None => TokenBudget::Unlimited,
    }
}

fn timeout_exec(occs: &Vec<(Opt, Vec<char>)>) -> (r: RunTimeout)
    ensures
        r.as_limit() == timeout_in(occs_view(occs@)),
{
    match text_of(occs, Opt::Timeout) {
        Some(v) => match parse_limit(v.as_str()) {
            Ok(l) => RunTimeout::from_limit(l),
            _ => RunTimeout::Unlimited,
        },
        None => RunTimeout::Unlimited,
    }
}

fn status_exec(occs: &Vec<(Opt, Vec<char>)>) -> (r: Option<GoalStatus>)
    ensures
        r == status_in(occs_view(occs@)),
{
    match text_of(occs, Opt::Status) {
        Some(v) => goal_status_from_name(v.as_str()),
        None => None,
    }
}

fn question_mode_opt_exec(occs: &Vec<(Opt, Vec<char>)>) -> (r: Option<QuestionMode>)
    ensures
        r == question_mode_opt_in(occs_view(occs@)),
{
    match text_of(occs, Opt::QuestionMode) {
        Some(v) => question_mode_from_name(v.as_str()),
        None => None,
    }
}

fn question_mode_exec(occs: &Vec<(Opt, Vec<char>)>) -> (r: QuestionMode)
    ensures
        r == question_mode_in(occs_view(occs@)),
{
    match question_mode_opt_exec(occs) {
        Some(m) => m,
        None => QuestionMode::AutoRecommended,
    }
}

fn effort_exec(occs: &Vec<(Opt, Vec<char>)>) -> (r: Effort)
    ensures
        r == effort_in(occs_view(occs@)),
{
    match text_of(occs, Opt::Effort) {
        Some(v) => match effort_from_name(v.as_str()) {
            Some(e) => e,
            None => Effort::Medium,
        },
        None => Effort::Medium,
    }
}

fn sandbox_exec(occs: &Vec<(Opt, Vec<char>)>) -> (r: SandboxMode)
    ensures
        r == sandbox_in(occs_view(occs@)),
{
    match text_of(occs, Opt::Sandbox) {
        Some(v) => match sandbox_from_name(v.as_str()) {
            Some(m) => m,
            None => SandboxMode::ReadOnly,
        },
        None => SandboxMode::ReadOnly,
    }
}

fn approval_exec(occs: &Vec<(Opt, Vec<char>)>) -> (r: ApprovalPolicy)
    ensures
        r == approval_in(occs_view(occs@)),
{
    match text_of(occs, Opt::ApprovalPolicy) {
        Some(v) => match approval_from_name(v.as_str()) {
            Some(p) => p,
            None => ApprovalPolicy::Never,
        },
        None => ApprovalPolicy::Never,
    }
}

fn log_mode_exec(occs: &Vec<(Opt, Vec<char>)>) -> (r: LogMode)
    ensures
        r == log_mode_in(occs_view(occs@)),
{
    match text_of(occs, Opt::LogMode) {
        Some(v) => match log_mode_from_name(v.as_str()) {
            Some(m) => m,
            None => LogMode::Summary,
        },
        None => LogMode::Summary,
    }
}

fn interval_exec(occs: &Vec<(Opt, Vec<char>)>) -> (r: u64)
    ensures
        r == interval_in(occs_view(occs@)),
{
    match value_index(occs, Opt::IntervalMs) {
        Some(i) => match parse_u64(occs[i].1.as_slice()) {
            Some(n) => n,
            None => 1000,
        },
        None => 1000,
    }
}

fn limit_exec(occs: &Vec<(Opt, Vec<char>)>) -> (r: usize)
    ensures
        r == limit_in(occs_view(occs@)),
{
    match value_index(occs, Opt::Limit) {
        Some(i) => match parse_u64(occs[i].1.as_slice()) {
            Some(n) => if n <= usize::MAX as u64 {
                n as usize
            } else {
                20
            },
            None => 20,
        },
        None => 20,
    }
}

impl RuntimeArgs {
    /// The runtime options are those read from the options seen.
    pub open spec fn decodes(&self, occs: Seq<(Opt, Seq<char>)>) -> bool {
        &&& opt_str(self.cwd) == value_of(occs, Opt::Cwd)
        &&& self.sandbox == sandbox_in(occs)
        &&& self.approval_policy == approval_in(occs)
        &&& self.full_auto == has_occ(occs, Opt::FullAuto)
    }

    pub fn decode(occs: &Vec<(Opt, Vec<char>)>) -> (r: RuntimeArgs)
        ensures
            r.decodes(occs_view(occs@)),
    {
        RuntimeArgs {
            cwd: text_of(occs, Opt::Cwd),
            sandbox: sandbox_exec(occs),
            approval_policy: approval_exec(occs),
            full_auto: has_occ_exec(occs, Opt::FullAuto),
        }
    }
}

// ---------------------------------------------------------------- the command line

/// Arguments of `raw`: an app-server method and its JSON params.
#[derive(Debug)]
pub struct RawArgs {
    pub method: String,
    pub params: Option<String>,
    pub params_file: Option<String>,
    pub include_events: bool,
}

impl RawArgs {
    /// The arguments are those read from the options and positional arguments seen.
    pub open spec fn decodes(&self, occs: Seq<(Opt, Seq<char>)>) -> bool {
        &&& self.method@ == required_text(occs, Opt::Method)
        &&& opt_str(self.params) == value_of(occs, Opt::Params)
        &&& opt_str(self.params_file) == value_of(occs, Opt::ParamsFile)
        &&& self.include_events == has_occ(occs, Opt::IncludeEvents)
    }

    pub fn decode(occs: &Vec<(Opt, Vec<char>)>) -> (r: Self)
        ensures
            r.decodes(occs_view(occs@)),
    {
        RawArgs {
            method: required_text_exec(occs, Opt::Method),
            params: text_of(occs, Opt::Params),
            params_file: text_of(occs, Opt::ParamsFile),
            include_events: has_occ_exec(occs, Opt::IncludeEvents),
        }
    }
}

/// Arguments of `read`: the thread to read.
#[derive(Debug)]
pub struct ReadArgs {
    pub thread_id: String,
    pub metadata_only: bool,
    pub compact: bool,
}

impl ReadArgs {
    /// The arguments are those read from the options and positional arguments seen.
    pub open spec fn decodes(&self, occs: Seq<(Opt, Seq<char>)>) -> bool {
        &&& self.thread_id@ == required_text(occs, Opt::ThreadId)
        &&& self.metadata_only == has_occ(occs, Opt::MetadataOnly)
        &&& self.compact == has_occ(occs, Opt::Compact)
    }

    pub fn decode(occs: &Vec<(Opt, Vec<char>)>) -> (r: Self)
        ensures
            r.decodes(occs_view(occs@)),
    {
        ReadArgs {
            thread_id: required_text_exec(occs, Opt::ThreadId),
            metadata_only: has_occ_exec(occs, Opt::MetadataOnly),
            compact: has_occ_exec(occs, Opt::Compact),
        }
    }
}

/// Arguments of `view`: a rollout file or a daemon run, and where the viewer goes.
#[derive(Debug)]
pub struct ViewArgs {
    pub file: Option<String>,
    pub run_id: Option<String>,
    pub out: Option<String>,
    pub viewer_html: Option<String>,
    pub no_open: bool,
}

impl ViewArgs {
    /// The arguments are those read from the options and positional arguments seen.
    pub open spec fn decodes(&self, occs: Seq<(Opt, Seq<char>)>) -> bool {
        &&& opt_str(self.file) == value_of(occs, Opt::File)
        &&& opt_str(self.run_id) == value_of(occs, Opt::RunId)
        &&& opt_str(self.out) == value_of(occs, Opt::Out)
        &&& opt_str(self.viewer_html) == value_of(occs, Opt::ViewerHtml)
        &&& self.no_open == has_occ(occs, Opt::NoOpen)
    }

    pub fn decode(occs: &Vec<(Opt, Vec<char>)>) -> (r: Self)
        ensures
            r.decodes(occs_view(occs@)),
    {
        ViewArgs {
            file: text_of(occs, Opt::File),
            run_id: text_of(occs, Opt::RunId),
            out: text_of(occs, Opt::Out),
            viewer_html: text_of(occs, Opt::ViewerHtml),
            no_open: has_occ_exec(occs, Opt::NoOpen),
        }
    }
}

/// Arguments of `goal set`.
#[derive(Debug)]
pub struct GoalSetArgs {
    pub thread_id: Option<String>,
    pub objective: String,
    pub token_budget: TokenBudget,
    pub status: Option<GoalStatus>,
    pub runtime: RuntimeArgs,
}

impl GoalSetArgs {
    /// The arguments are those read from the options and positional arguments seen.
    pub open spec fn decodes(&self, occs: Seq<(Opt, Seq<char>)>) -> bool {
        &&& opt_str(self.thread_id) == value_of(occs, Opt::ThreadId)
        &&& self.objective@ == required_text(occs, Opt::Objective)
        &&& self.token_budget.as_limit() == budget_in(occs)
        &&& self.status == status_in(occs)
        &&& self.runtime.decodes(occs)
    }

    pub fn decode(occs: &Vec<(Opt, Vec<char>)>) -> (r: Self)
        ensures
            r.decodes(occs_view(occs@)),
    {
        GoalSetArgs {
            thread_id: text_of(occs, Opt::ThreadId),
            objective: required_text_exec(occs, Opt::Objective),
            token_budget: budget_exec(occs),
            status: status_exec(occs),
            runtime: RuntimeArgs::decode(occs),
        }
    }
}

/// Arguments naming one thread.
#[derive(Debug)]
pub struct ThreadIdArgs {
    pub thread_id: String,
}

impl ThreadIdArgs {
    /// The arguments are those read from the options and positional arguments seen.
    pub open spec fn decodes(&self, occs: Seq<(Opt, Seq<char>)>) -> bool {
        &&& self.thread_id@ == required_text(occs, Opt::ThreadId)
    }

    pub fn decode(occs: &Vec<(Opt, Vec<char>)>) -> (r: Self)
        ensures
            r.decodes(occs_view(occs@)),
    {
        ThreadIdArgs {
            thread_id: required_text_exec(occs, Opt::ThreadId),
        }
    }
}

/// Arguments of `plan`.
#[derive(Debug)]
pub struct PlanArgs {
    pub prompt: Option<String>,
    pub prompt_file: Option<String>,
    pub objective: Option<String>,
    pub token_budget: TokenBudget,
    pub question_mode: QuestionMode,
    pub effort: Effort,
    pub model: Option<String>,
    pub jsonl: bool,
    pub timeout: RunTimeout,
    pub runtime: RuntimeArgs,
}

impl PlanArgs {
    /// The arguments are those read from the options and positional arguments seen.
    pub open spec fn decodes(&self, occs: Seq<(Opt, Seq<char>)>) -> bool {
        &&& opt_str(self.prompt) == value_of(occs, Opt::Prompt)
        &&& opt_str(self.prompt_file) == value_of(occs, Opt::PromptFile)
        &&& opt_str(self.objective) == value_of(occs, Opt::Objective)
        &&& self.token_budget.as_limit() == budget_in(occs)
        &&& self.question_mode == question_mode_in(occs)
        &&& self.effort == effort_in(occs)
        &&& opt_str(self.model) == value_of(occs, Opt::Model)
        &&& self.jsonl == has_occ(occs, Opt::Jsonl)
        &&& self.timeout.as_limit() == timeout_in(occs)
        &&& self.runtime.decodes(occs)
    }

    pub fn decode(occs: &Vec<(Opt, Vec<char>)>) -> (r: Self)
        ensures
            r.decodes(occs_view(occs@)),
    {
        PlanArgs {
            prompt: text_of(occs, Opt::Prompt),
            prompt_file: text_of(occs, Opt::PromptFile),
            objective: text_of(occs, Opt::Objective),
            token_budget: budget_exec(occs),
            question_mode: question_mode_exec(occs),
            effort: effort_exec(occs),
            model: text_of(occs, Opt::Model),
            jsonl: has_occ_exec(occs, Opt::Jsonl),
            timeout: timeout_exec(occs),
            runtime: RuntimeArgs::decode(occs),
        }
    }
}

/// Arguments of `session start`.
#[derive(Debug)]
pub struct SessionStartArgs {
    pub prompt: Option<String>,
    pub prompt_file: Option<String>,
    pub objective: Option<String>,
    pub token_budget: TokenBudget,
    pub effort: Effort,
    pub model: Option<String>,
    pub timeout: RunTimeout,
    pub detach: bool,
    pub question_mode: Option<QuestionMode>,
    pub version_dir: Option<String>,
    pub runtime: RuntimeArgs,
}

impl SessionStartArgs {
    /// The arguments are those read from the options and positional arguments seen.
    pub open spec fn decodes(&self, occs: Seq<(Opt, Seq<char>)>) -> bool {
        &&& opt_str(self.prompt) == value_of(occs, Opt::Prompt)
        &&& opt_str(self.prompt_file) == value_of(occs, Opt::PromptFile)
        &&& opt_str(self.objective) == value_of(occs, Opt::Objective)
        &&& self.token_budget.as_limit() == budget_in(occs)
        &&& self.effort == effort_in(occs)
        &&& opt_str(self.model) == value_of(occs, Opt::Model)
        &&& self.timeout.as_limit() == timeout_in(occs)
        &&& self.detach == has_occ(occs, Opt::Detach)
        &&& self.question_mode == question_mode_opt_in(occs)
        &&& opt_str(self.version_dir) == value_of(occs, Opt::VersionDir)
        &&& self.runtime.decodes(occs)
    }

    pub fn decode(occs: &Vec<(Opt, Vec<char>)>) -> (r: Self)
        ensures
            r.decodes(occs_view(occs@)),
    {
        SessionStartArgs {
            prompt: text_of(occs, Opt::Prompt),
            prompt_file: text_of(occs, Opt::PromptFile),
            objective: text_of(occs, Opt::Objective),
            token_budget: budget_exec(occs),
            effort: effort_exec(occs),
            model: text_of(occs, Opt::Model),
            timeout: timeout_exec(occs),
            detach: has_occ_exec(occs, Opt::Detach),
            question_mode: question_mode_opt_exec(occs),
            version_dir: text_of(occs, Opt::VersionDir),
            runtime: RuntimeArgs::decode(occs),
        }
    }
}

/// Arguments of `session answer`.
#[derive(Debug)]
pub struct SessionAnswerArgs {
    pub run_id: String,
    pub answers: Vec<String>,
    pub answers_json: Option<String>,
    pub answers_file: Option<String>,
    pub pick: Option<String>,
    pub timeout: RunTimeout,
    pub detach: bool,
}

impl SessionAnswerArgs {
    /// The arguments are those read from the options and positional arguments seen.
    pub open spec fn decodes(&self, occs: Seq<(Opt, Seq<char>)>) -> bool {
        &&& self.run_id@ == required_text(occs, Opt::RunId)
        &&& strings_view(self.answers@) == values_of(occs, Opt::Answer)
        &&& opt_str(self.answers_json) == value_of(occs, Opt::AnswersJson)
        &&& opt_str(self.answers_file) == value_of(occs, Opt::AnswersFile)
        &&& opt_str(self.pick) == value_of(occs, Opt::Pick)
        &&& self.timeout.as_limit() == timeout_in(occs)
        &&& self.detach == has_occ(occs, Opt::Detach)
    }

    pub fn decode(occs: &Vec<(Opt, Vec<char>)>) -> (r: Self)
        ensures
            r.decodes(occs_view(occs@)),
    {
        SessionAnswerArgs {
            run_id: required_text_exec(occs, Opt::RunId),
            answers: texts_of(occs, Opt::Answer),
            answers_json: text_of(occs, Opt::AnswersJson),
            answers_file: text_of(occs, Opt::AnswersFile),
            pick: text_of(occs, Opt::Pick),
            timeout: timeout_exec(occs),
            detach: has_occ_exec(occs, Opt::Detach),
        }
    }
}

/// Arguments of `session send`.
#[derive(Debug)]
pub struct SessionSendArgs {
    pub run_id: String,
    pub prompt: Option<String>,
    pub prompt_file: Option<String>,
    pub effort: Effort,
    pub model: Option<String>,
    pub timeout: RunTimeout,
    pub detach: bool,
}

impl SessionSendArgs {
    /// The arguments are those read from the options and positional arguments seen.
    pub open spec fn decodes(&self, occs: Seq<(Opt, Seq<char>)>) -> bool {
        &&& self.run_id@ == required_text(occs, Opt::RunId)
        &&& opt_str(self.prompt) == value_of(occs, Opt::Prompt)
        &&& opt_str(self.prompt_file) == value_of(occs, Opt::PromptFile)
        &&& self.effort == effort_in(occs)
        &&& opt_str(self.model) == value_of(occs, Opt::Model)
        &&& self.timeout.as_limit() == timeout_in(occs)
        &&& self.detach == has_occ(occs, Opt::Detach)
    }

    pub fn decode(occs: &Vec<(Opt, Vec<char>)>) -> (r: Self)
        ensures
            r.decodes(occs_view(occs@)),
    {
        SessionSendArgs {
            run_id: required_text_exec(occs, Opt::RunId),
            prompt: text_of(occs, Opt::Prompt),
            prompt_file: text_of(occs, Opt::PromptFile),
            effort: effort_exec(occs),
            model: text_of(occs, Opt::Model),
            timeout: timeout_exec(occs),
            detach: has_occ_exec(occs, Opt::Detach),
        }
    }
}

/// Arguments of `session execute`.
#[derive(Debug)]
pub struct SessionExecuteArgs {
    pub run_id: String,
    pub prompt: Option<String>,
    pub prompt_file: Option<String>,
    pub effort: Effort,
    pub model: Option<String>,
    pub timeout: RunTimeout,
    pub detach: bool,
}

impl SessionExecuteArgs {
    /// The arguments are those read from the options and positional arguments seen.
    pub open spec fn decodes(&self, occs: Seq<(Opt, Seq<char>)>) -> bool {
        &&& self.run_id@ == required_text(occs, Opt::RunId)
        &&& opt_str(self.prompt) == value_of(occs, Opt::Prompt)
        &&& opt_str(self.prompt_file) == value_of(occs, Opt::PromptFile)
        &&& self.effort == effort_in(occs)
        &&& opt_str(self.model) == value_of(occs, Opt::Model)
        &&& self.timeout.as_limit() == timeout_in(occs)
        &&& self.detach == has_occ(occs, Opt::Detach)
    }

    pub fn decode(occs: &Vec<(Opt, Vec<char>)>) -> (r: Self)
        ensures
            r.decodes(occs_view(occs@)),
    {
        SessionExecuteArgs {
            run_id: required_text_exec(occs, Opt::RunId),
            prompt: text_of(occs, Opt::Prompt),
            prompt_file: text_of(occs, Opt::PromptFile),
            effort: effort_exec(occs),
            model: text_of(occs, Opt::Model),
            timeout: timeout_exec(occs),
            detach: has_occ_exec(occs, Opt::Detach),
        }
    }
}

/// Arguments of `session resume`.
#[derive(Debug)]
pub struct SessionResumeArgs {
    pub thread_id: String,
    pub effort: Effort,
    pub model: Option<String>,
    pub runtime: RuntimeArgs,
}

impl SessionResumeArgs {
    /// The arguments are those read from the options and positional arguments seen.
    pub open spec fn decodes(&self, occs: Seq<(Opt, Seq<char>)>) -> bool {
        &&& self.thread_id@ == required_text(occs, Opt::ThreadId)
        &&& self.effort == effort_in(occs)
        &&& opt_str(self.model) == value_of(occs, Opt::Model)
        &&& self.runtime.decodes(occs)
    }

    pub fn decode(occs: &Vec<(Opt, Vec<char>)>) -> (r: Self)
        ensures
            r.decodes(occs_view(occs@)),
    {
        SessionResumeArgs {
            thread_id: required_text_exec(occs, Opt::ThreadId),
            effort: effort_exec(occs),
            model: text_of(occs, Opt::Model),
            runtime: RuntimeArgs::decode(occs),
        }
    }
}

/// Arguments of `session read`.
#[derive(Debug)]
pub struct SessionReadArgs {
    pub run_id: String,
    pub full: bool,
}

impl SessionReadArgs {
    /// The arguments are those read from the options and positional arguments seen.
    pub open spec fn decodes(&self, occs: Seq<(Opt, Seq<char>)>) -> bool {
        &&& self.run_id@ == required_text(occs, Opt::RunId)
        &&& self.full == has_occ(occs, Opt::Full)
    }

    pub fn decode(occs: &Vec<(Opt, Vec<char>)>) -> (r: Self)
        ensures
            r.decodes(occs_view(occs@)),
    {
        SessionReadArgs {
            run_id: required_text_exec(occs, Opt::RunId),
            full: has_occ_exec(occs, Opt::Full),
        }
    }
}

/// Arguments of `session watch`.
#[derive(Debug)]
pub struct SessionWatchArgs {
    pub run_id: String,
    pub interval_ms: u64,
    pub full: bool,
}

impl SessionWatchArgs {
    /// The arguments are those read from the options and positional arguments seen.
    pub open spec fn decodes(&self, occs: Seq<(Opt, Seq<char>)>) -> bool {
        &&& self.run_id@ == required_text(occs, Opt::RunId)
        &&& self.interval_ms == interval_in(occs)
        &&& self.full == has_occ(occs, Opt::Full)
    }

    pub fn decode(occs: &Vec<(Opt, Vec<char>)>) -> (r: Self)
        ensures
            r.decodes(occs_view(occs@)),
    {
        SessionWatchArgs {
            run_id: required_text_exec(occs, Opt::RunId),
            interval_ms: interval_exec(occs),
            full: has_occ_exec(occs, Opt::Full),
        }
    }
}

/// Arguments of `session list`.
#[derive(Debug)]
pub struct SessionListArgs {
    pub threads: bool,
    pub limit: usize,
}

impl SessionListArgs {
    /// The arguments are those read from the options and positional arguments seen.
    pub open spec fn decodes(&self, occs: Seq<(Opt, Seq<char>)>) -> bool {
        &&& self.threads == has_occ(occs, Opt::Threads)
        &&& self.limit == limit_in(occs)
    }

    pub fn decode(occs: &Vec<(Opt, Vec<char>)>) -> (r: Self)
        ensures
            r.decodes(occs_view(occs@)),
    {
        SessionListArgs {
            threads: has_occ_exec(occs, Opt::Threads),
            limit: limit_exec(occs),
        }
    }
}

/// Arguments naming one daemon run.
#[derive(Debug)]
pub struct SessionRunIdArgs {
    pub run_id: String,
}

impl SessionRunIdArgs {
    /// The arguments are those read from the options and positional arguments seen.
    pub open spec fn decodes(&self, occs: Seq<(Opt, Seq<char>)>) -> bool {
        &&& self.run_id@ == required_text(occs, Opt::RunId)
    }

    pub fn decode(occs: &Vec<(Opt, Vec<char>)>) -> (r: Self)
        ensures
            r.decodes(occs_view(occs@)),
    {
        SessionRunIdArgs {
            run_id: required_text_exec(occs, Opt::RunId),
        }
    }
}

/// Arguments of `answer`: a question id and the selected answers.
#[derive(Debug)]
pub struct AnswerArgs {
    pub question: String,
    pub answer: Vec<String>,
}

impl AnswerArgs {
    /// The arguments are those read from the options and positional arguments seen.
    pub open spec fn decodes(&self, occs: Seq<(Opt, Seq<char>)>) -> bool {
        &&& self.question@ == required_text(occs, Opt::Question)
        &&& strings_view(self.answer@) == values_of(occs, Opt::Answer)
    }

    pub fn decode(occs: &Vec<(Opt, Vec<char>)>) -> (r: Self)
        ensures
            r.decodes(occs_view(occs@)),
    {
        AnswerArgs {
            question: required_text_exec(occs, Opt::Question),
            answer: texts_of(occs, Opt::Answer),
        }
    }
}

/// `goal` subcommands.
#[derive(Debug)]
pub enum GoalCommand {
    SetGoal(GoalSetArgs),
    Get(ThreadIdArgs),
    Clear(ThreadIdArgs),
}

/// `session` subcommands.
#[derive(Debug)]
pub enum SessionCommand {
    Start(SessionStartArgs),
    Answer(SessionAnswerArgs),
    Send(SessionSendArgs),
    Execute(SessionExecuteArgs),
    Resume(SessionResumeArgs),
    Read(SessionReadArgs),
    Watch(SessionWatchArgs),
    Interrupt(SessionRunIdArgs),
    List(SessionListArgs),
    Stop(SessionRunIdArgs),
}

/// `daemon` subcommands.
#[derive(Debug, Clone, Copy, PartialEq, Eq, Structural)]
pub enum DaemonCommand {
    Start,
    Status,
    List,
    Stop,
    Serve,
}

/// The command chosen on the command line.
#[derive(Debug)]
pub enum Commands {
    Doctor,
    Guide,
    Methods,
    Modes,
    Features,
    Account,
    Quota,
    Models,
    Status,
    Read(ReadArgs),
    Raw(RawArgs),
    Goal(GoalCommand),
    Plan(PlanArgs),
    Answer(AnswerArgs),
    View(ViewArgs),
    Session(SessionCommand),
    Daemon(DaemonCommand),
}

/// The whole command line: global options and the command.
#[derive(Debug)]
pub struct Cli {
    pub codex_bin: String,
    pub codex_home: Option<String>,
    pub log_dir: Option<String>,
    pub log_mode: LogMode,
    pub session_socket: Option<String>,
    pub command: Commands,
}

impl Commands {
    /// The command is the one reached, with the arguments read for it.
    pub open spec fn decodes(&self, c: Cmd, occs: Seq<(Opt, Seq<char>)>) -> bool {
        match *self {
            Commands::Doctor => c == Cmd::Doctor,
            Commands::Guide => c == Cmd::Guide,
            Commands::Methods => c == Cmd::Methods,
            Commands::Modes => c == Cmd::Modes,
            Commands::Features => c == Cmd::Features,
            Commands::Account => c == Cmd::Account,
            Commands::Quota => c == Cmd::Quota,
            Commands::Models => c == Cmd::Models,
            Commands::Status => c == Cmd::Status,
            Commands::Read(a) => c == Cmd::Read && a.decodes(occs),
            Commands::Raw(a) => c == Cmd::Raw && a.decodes(occs),
            Commands::Goal(GoalCommand::SetGoal(a)) => c == Cmd::GoalSet && a.decodes(occs),
            Commands::Goal(GoalCommand::Get(a)) => c == Cmd::GoalGet && a.decodes(occs),
            Commands::Goal(GoalCommand::Clear(a)) => c == Cmd::GoalClear && a.decodes(occs),
            Commands::Plan(a) => c == Cmd::Plan && a.decodes(occs),
            Commands::Answer(a) => c == Cmd::Answer && a.decodes(occs),
            Commands::View(a) => c == Cmd::View && a.decodes(occs),
            Commands::Session(SessionCommand::Start(a)) => c == Cmd::SessionStart && a.decodes(occs),
            Commands::Session(SessionCommand::Answer(a)) => c == Cmd::SessionAnswer && a.decodes(occs),
            Commands::Session(SessionCommand::Send(a)) => c == Cmd::SessionSend && a.decodes(occs),
            Commands::Session(SessionCommand::Execute(a)) => c == Cmd::SessionExecute && a.decodes(occs),
            Commands::Session(SessionCommand::Resume(a)) => c == Cmd::SessionResume && a.decodes(occs),
            Commands::Session(SessionCommand::Read(a)) => c == Cmd::SessionRead && a.decodes(occs),
            Commands::Session(SessionCommand::Watch(a)) => c == Cmd::SessionWatch && a.decodes(occs),
            Commands::Session(SessionCommand::Interrupt(a)) => c == Cmd::SessionInterrupt && a.decodes(occs),
            Commands::Session(SessionCommand::List(a)) => c == Cmd::SessionList && a.decodes(occs),
            Commands::Session(SessionCommand::Stop(a)) => c == Cmd::SessionStop && a.decodes(occs),
            Commands::Daemon(DaemonCommand::Start) => c == Cmd::DaemonStart,
            Commands::Daemon(DaemonCommand::Status) => c == Cmd::DaemonStatus,
            Commands::Daemon(DaemonCommand::List) => c == Cmd::DaemonList,
            Commands::Daemon(DaemonCommand::Stop) => c == Cmd::DaemonStop,
            Commands::Daemon(DaemonCommand::Serve) => c == Cmd::DaemonServe,
        }
    }

    /// Builds the command reached; requires a command that is not a group.
    pub fn decode(c: Cmd, occs: &Vec<(Opt, Vec<char>)>) -> (r: Commands)
        requires
            c != Cmd::Root && c != Cmd::Goal && c != Cmd::Session && c != Cmd::Daemon,
        ensures
            r.decodes(c, occs_view(occs@)),
    {
        match c {
            Cmd::Doctor => Commands::Doctor,
            Cmd::Guide => Commands::Guide,
            Cmd::Methods => Commands::Methods,
            Cmd::Modes => Commands::Modes,
            Cmd::Features => Commands::Features,
            Cmd::Account => Commands::Account,
            Cmd::Quota => Commands::Quota,
            Cmd::Models => Commands::Models,
            Cmd::Status => Commands::Status,
            Cmd::Read => Commands::Read(ReadArgs::decode(occs)),
            Cmd::Raw => Commands::Raw(RawArgs::decode(occs)),
            Cmd::GoalSet => Commands::Goal(GoalCommand::SetGoal(GoalSetArgs::decode(occs))),
            Cmd::GoalGet => Commands::Goal(GoalCommand::Get(ThreadIdArgs::decode(occs))),
            Cmd::GoalClear => Commands::Goal(GoalCommand::Clear(ThreadIdArgs::decode(occs))),
            Cmd::Plan => Commands::Plan(PlanArgs::decode(occs)),
            Cmd::Answer => Commands::Answer(AnswerArgs::decode(occs)),
            Cmd::View => Commands::View(ViewArgs::decode(occs)),
            Cmd::SessionStart => Commands::Session(SessionCommand::Start(SessionStartArgs::decode(occs))),
            Cmd::SessionAnswer => Commands::Session(SessionCommand::Answer(SessionAnswerArgs::decode(occs))),
            Cmd::SessionSend => Commands::Session(SessionCommand::Send(SessionSendArgs::decode(occs))),
            Cmd::SessionExecute => Commands::Session(SessionCommand::Execute(SessionExecuteArgs::decode(occs))),
            Cmd::SessionResume => Commands::Session(SessionCommand::Resume(SessionResumeArgs::decode(occs))),
            Cmd::SessionRead => Commands::Session(SessionCommand::Read(SessionReadArgs::decode(occs))),
            Cmd::SessionWatch => Commands::Session(SessionCommand::Watch(SessionWatchArgs::decode(occs))),
            Cmd::SessionInterrupt => Commands::Session(SessionCommand::Interrupt(SessionRunIdArgs::decode(occs))),
            Cmd::SessionList => Commands::Session(SessionCommand::List(SessionListArgs::decode(occs))),
            Cmd::SessionStop => Commands::Session(SessionCommand::Stop(SessionRunIdArgs::decode(occs))),
            Cmd::DaemonStart => Commands::Daemon(DaemonCommand::Start),
            Cmd::DaemonStatus => Commands::Daemon(DaemonCommand::Status),
            Cmd::DaemonList => Commands::Daemon(DaemonCommand::List),
            Cmd::DaemonStop => Commands::Daemon(DaemonCommand::Stop),
            Cmd::DaemonServe => Commands::Daemon(DaemonCommand::Serve),
            _ => Commands::Doctor,
        }
    }
}

impl Cli {
    /// The command line is the one read: global options and the command with its arguments.
    pub open spec fn decodes(&self, st: ScanV) -> bool {
        &&& self.codex_bin@ == codex_bin_in(st.occs)
        &&& opt_str(self.codex_home) == value_of(st.occs, Opt::CodexHome)
        &&& opt_str(self.log_dir) == value_of(st.occs, Opt::LogDir)
        &&& self.log_mode == log_mode_in(st.occs)
        &&& opt_str(self.session_socket) == value_of(st.occs, Opt::SessionSocket)
        &&& self.command.decodes(st.cmd, st.occs)
    }

    /// Parses a command line whose first element names the program. It is accepted exactly
    /// when `read_command_line` accepts it, and then holds what was read.
    pub fn try_parse_from(args: &[&str]) -> (r: Result<Cli, CliError>)
        ensures
            match read_command_line(args@.map_values(|a: &str| a@)) {
                Ok(st) => r matches Ok(cli) && cli.decodes(st),
                Err(e) => r matches Err(x) && x@ == e,
            },
    {
        let scan = read_args(args)?;
        let occs = &scan.occs;
        let codex_bin = match text_of(occs, Opt::CodexBin) {
            Some(v) => v,
            None => owned("codex"),
        };
        if scan.cmd == Cmd::Root || scan.cmd == Cmd::Goal || scan.cmd == Cmd::Session || scan.cmd
            == Cmd::Daemon {
            // `read_args` refuses a command line that stops at a group.
            assert(false);
        }
        let command = Commands::decode(scan.cmd, occs);
        Ok(Cli {
            codex_bin,
            codex_home: text_of(occs, Opt::CodexHome),
            log_dir: text_of(occs, Opt::LogDir),
            log_mode: log_mode_exec(occs),
            session_socket: text_of(occs, Opt::SessionSocket),
            command,
        })
    }
}

} // verus!
