use vstd::prelude::*;
use vstd::string::*;

use crate::text::{chars_of, owned, parse_u64, push_chars, push_str, parsed_u64, str_eq, trim_bounds, slice_chars,
    lower_ascii, lowered, trimmed, decimal_text, decimal_digits, string_of};

verus! {

/// How protocol traffic is logged.
#[derive(Debug, Clone, Copy, PartialEq, Eq, Structural)]
pub enum LogMode {
    Off,
    Summary,
    Full,
}

/// How structured `request_user_input` questions are handled.
#[derive(Debug, Clone, Copy, PartialEq, Eq, Structural)]
pub enum QuestionMode {
    AutoRecommended,
    AutoFirst,
    Interactive,
    External,
    Fail,
}

/// Sandbox mode passed to `thread/start`.
#[derive(Debug, Clone, Copy, PartialEq, Eq, Structural)]
pub enum SandboxMode {
    ReadOnly,
    WorkspaceWrite,
    DangerFullAccess,
}

/// Approval policy passed to `thread/start`.
#[derive(Debug, Clone, Copy, PartialEq, Eq, Structural)]
pub enum ApprovalPolicy {
    Untrusted,
    OnFailure,
    OnRequest,
    Never,
}

/// Reasoning effort sent in collaboration settings.
#[derive(Debug, Clone, Copy, PartialEq, Eq, Structural)]
pub enum Effort {
    NoReasoning,
    Minimal,
    Low,
    Medium,
    High,
    Xhigh,
}

/// Goal status written by `thread/goal/set`.
#[derive(Debug, Clone, Copy, PartialEq, Eq, Structural)]
pub enum GoalStatus {
    Active,
    Paused,
    BudgetLimited,
    Complete,
}

/// A count that is never zero.
#[derive(Debug, Clone, Copy, PartialEq, Eq, Structural)]
pub struct NonZeroCount {
    value: u64,
}

impl NonZeroCount {
    #[verifier::type_invariant]
    spec fn nonzero(self) -> bool {
        self.value > 0
    }

    /// The count.
    pub closed spec fn view(self) -> u64 {
        self.value
    }

    /// The count `n`, unless it is zero.
    pub fn new(n: u64) -> (r: Option<NonZeroCount>)
        ensures
            r is Some <==> n > 0,
            r matches Some(c) ==> c@ == n,
    {
        if n > 0 {
            Some(NonZeroCount { value: n })
        } else {
            None
        }
    }

    /// Two counts are the same value exactly when they count the same.
    pub proof fn lemma_view_determines(a: NonZeroCount, b: NonZeroCount)
        ensures
            a@ == b@ <==> a == b,
    {
    }

    /// The count, which is never zero.
    pub fn get(self) -> (r: u64)
        ensures
            r == self@,
            r > 0,
    {
        proof { use_type_invariant(&self); }
        self.value
    }
}

/// A goal token budget.
#[derive(Debug, Clone, Copy, PartialEq, Eq, Structural)]
pub enum TokenBudget {
    Unlimited,
    Limited(NonZeroCount),
}

/// The wait for one app-server event.
#[derive(Debug, Clone, Copy, PartialEq, Eq, Structural)]
pub enum RunTimeout {
    Unlimited,
    Seconds(NonZeroCount),
}

/// Why a budget or timeout text was refused.
#[derive(Debug, Clone, PartialEq, Eq)]
pub enum LimitError {
    /// Neither an unlimited keyword nor an unsigned integer.
    NotAnInteger,
    /// A count above the useful bound.
    TooLarge(u64),
}

/// The largest budget or timeout that is accepted.
pub const LIMIT_MAX: u64 = 10_000_000_000;

// ---------------------------------------------------------------- protocol names

pub open spec fn sandbox_protocol(m: SandboxMode) -> Seq<char> {
    match m {
        SandboxMode::ReadOnly => "read-only"@,
        SandboxMode::WorkspaceWrite => "workspace-write"@,
        SandboxMode::DangerFullAccess => "danger-full-access"@,
    }
}

pub open spec fn approval_protocol(p: ApprovalPolicy) -> Seq<char> {
    match p {
        ApprovalPolicy::Untrusted => "untrusted"@,
        ApprovalPolicy::OnFailure => "on-failure"@,
        ApprovalPolicy::OnRequest => "on-request"@,
        ApprovalPolicy::Never => "never"@,
    }
}

pub open spec fn effort_protocol(e: Effort) -> Seq<char> {
    match e {
        Effort::NoReasoning => "none"@,
        Effort::Minimal => "minimal"@,
        Effort::Low => "low"@,
        Effort::Medium => "medium"@,
        Effort::High => "high"@,
        Effort::Xhigh => "xhigh"@,
    }
}

pub open spec fn goal_status_protocol(g: GoalStatus) -> Seq<char> {
    match g {
        GoalStatus::Active => "active"@,
        GoalStatus::Paused => "paused"@,
        GoalStatus::BudgetLimited => "budgetLimited"@,
        GoalStatus::Complete => "complete"@,
    }
}

pub open spec fn log_mode_text(m: LogMode) -> Seq<char> {
    match m {
        LogMode::Off => "off"@,
        LogMode::Summary => "summary"@,
        LogMode::Full => "full"@,
    }
}

impl SandboxMode {
    pub fn as_protocol(self) -> (r: &'static str)
        ensures
            r@ == sandbox_protocol(self),
    {
        match self {
            SandboxMode::ReadOnly => "read-only",
            SandboxMode::WorkspaceWrite => "workspace-write",
            SandboxMode::DangerFullAccess => "danger-full-access",
        }
    }
}

impl ApprovalPolicy {
    pub fn as_protocol(self) -> (r: &'static str)
        ensures
            r@ == approval_protocol(self),
    {
        match self {
            ApprovalPolicy::Untrusted => "untrusted",
            ApprovalPolicy::OnFailure => "on-failure",
            ApprovalPolicy::OnRequest => "on-request",
            ApprovalPolicy::Never => "never",
        }
    }
}

impl Effort {
    pub fn as_protocol(self) -> (r: &'static str)
        ensures
            r@ == effort_protocol(self),
    {
        match self {
            Effort::NoReasoning => "none",
            Effort::Minimal => "minimal",
            Effort::Low => "low",
            Effort::Medium => "medium",
            Effort::High => "high",
            Effort::Xhigh => "xhigh",
        }
    }
}

impl GoalStatus {
    pub fn as_protocol(self) -> (r: &'static str)
        ensures
            r@ == goal_status_protocol(self),
    {
        match self {
            GoalStatus::Active => "active",
            GoalStatus::Paused => "paused",
            GoalStatus::BudgetLimited => "budgetLimited",
            GoalStatus::Complete => "complete",
        }
    }
}

/// The name of a log mode in daemon requests.
pub fn log_mode_name(mode: LogMode) -> (r: &'static str)
    ensures
        r@ == log_mode_text(mode),
{
    match mode {
        LogMode::Off => "off",
        LogMode::Summary => "summary",
        LogMode::Full => "full",
    }
}

/// The log mode named in a daemon request.
pub fn parse_log_mode(value: &str) -> (r: Option<LogMode>)
    ensures
        match r {
            Some(m) => log_mode_text(m) == value@,
            None => forall|m: LogMode| log_mode_text(m) != value@,
        },
{
    if str_eq(value, "off") {
        Some(LogMode::Off)
    } else if str_eq(value, "summary") {
        Some(LogMode::Summary)
    } else if str_eq(value, "full") {
        Some(LogMode::Full)
    } else {
        None
    }
}

// ---------------------------------------------------------------- budgets and timeouts

/// The words that mean "no limit", after trimming and ASCII lowering.
pub open spec fn is_unlimited_word(s: Seq<char>) -> bool {
    ||| s == "unlimited"@
    ||| s == "infinite"@
    ||| s == "infinity"@
    ||| s == "none"@
    ||| s == "off"@
    ||| s == "0"@
}

/// What a budget or timeout text means: `None` for no limit, `Some(n)` for a count.
pub open spec fn limit_meaning(raw: Seq<char>) -> Result<Option<u64>, LimitError> {
    let n = lowered(trimmed(raw));
    if is_unlimited_word(n) {
        Ok(None)
    } else {
        match parsed_u64(n) {
            None => Err(LimitError::NotAnInteger),
            Some(v) => if v == 0 {
                Ok(None)
            } else if v > LIMIT_MAX {
                Err(LimitError::TooLarge(v))
            } else {
                Ok(Some(v))
            },
        }
    }
}

/// Reads a budget or timeout: an unlimited keyword, zero, or a count up to `LIMIT_MAX`.
pub fn parse_limit(raw: &str) -> (r: Result<Option<u64>, LimitError>)
    ensures
        r == limit_meaning(raw@),
{
    let v = chars_of(raw);
    let (a, b) = trim_bounds(v.as_slice());
    let t = slice_chars(v.as_slice(), a, b);
    let n = lower_ascii(t.as_slice());
    let s = string_of(n.as_slice());
    let ss = s.as_str();
    if str_eq(ss, "unlimited") || str_eq(ss, "infinite") || str_eq(ss, "infinity") || str_eq(
        ss,
        "none",
    ) || str_eq(ss, "off") || str_eq(ss, "0") {
        return Ok(None);
    }
    match parse_u64(n.as_slice()) {
        None => Err(LimitError::NotAnInteger),
        Some(value) => {
            if value == 0 {
                Ok(None)
            } else if value > LIMIT_MAX {
                Err(LimitError::TooLarge(value))
            } else {
                Ok(Some(value))
            }
        },
    }
}

/// What a refused budget or timeout text is told as, for the setting called `name`
/// (`token budget`, `timeout`).
pub open spec fn limit_message(name: Seq<char>, error: LimitError) -> Seq<char> {
    match error {
        LimitError::NotAnInteger => name + " must be a positive integer or unlimited"@,
        LimitError::TooLarge(v) => name + " is too large to be useful: "@ + decimal_digits(v as nat),
    }
}

pub fn limit_error_message(name: &str, error: &LimitError) -> (r: String)
    ensures
        r@ == limit_message(name@, *error),
{
    let mut out = owned(name);
    match error {
        LimitError::NotAnInteger => push_str(&mut out, " must be a positive integer or unlimited"),
        LimitError::TooLarge(v) => {
            push_str(&mut out, " is too large to be useful: ");
            let d = decimal_text(*v);
            push_chars(&mut out, d.as_slice());
        },
    }
    out
}

/// The name a budget is told by in messages.
pub open spec fn token_budget_name() -> Seq<char> {
    "token budget"@
}

/// The name a timeout is told by in messages.
pub open spec fn timeout_name() -> Seq<char> {
    "timeout"@
}

impl TokenBudget {
    /// The budget of a limit that is not zero: `Unlimited` for none.
    pub fn from_limit(limit: Option<u64>) -> (r: TokenBudget)
        requires
            limit matches Some(n) ==> n > 0,
        ensures
            r.as_limit() == limit,
    {
        match limit {
            Some(n) => match NonZeroCount::new(n) {
                Some(c) => TokenBudget::Limited(c),
                None => TokenBudget::Unlimited,
            },
            None => TokenBudget::Unlimited,
        }
    }

    /// Parses a token budget: a positive integer, or unlimited/infinite/none/0.
    pub fn parse(raw: &str) -> (r: Result<TokenBudget, LimitError>)
        ensures
            match limit_meaning(raw@) {
                Ok(l) => r matches Ok(b) && b.as_limit() == l,
                Err(e) => r == Err::<TokenBudget, LimitError>(e),
            },
    {
        match parse_limit(raw) {
            Ok(l) => Ok(TokenBudget::from_limit(l)),
            Err(e) => Err(e),
        }
    }

    /// The message of a refused budget text: `token budget ...`.
    pub fn error_message(error: &LimitError) -> (r: String)
        ensures
            r@ == limit_message(token_budget_name(), *error),
    {
        limit_error_message("token budget", error)
    }

    /// The `tokenBudget` value sent to the app-server; none for an unlimited budget, and never
    /// zero.
    pub fn as_protocol_value(self) -> (r: Option<u64>)
        ensures
            r == self.as_limit(),
            r matches Some(n) ==> n > 0,
    {
        match self {
            TokenBudget::Unlimited => None,
            TokenBudget::Limited(c) => Some(c.get()),
        }
    }

    /// The budget as text: `unlimited` or the count. Up to `LIMIT_MAX`, the text reads back
    /// as the same budget.
    pub fn to_text(&self) -> (r: String)
        ensures
            r@ == limit_text(self.as_limit()),
            (self.as_limit() matches Some(n) ==> n <= LIMIT_MAX) ==> limit_meaning(r@) == Ok::<
                Option<u64>,
                LimitError,
            >(self.as_limit()),
    {
        let l = self.as_protocol_value();
        proof {
            if l matches Some(n) ==> n <= LIMIT_MAX {
                crate::laws::law_limit_text_round_trip(l);
            }
        }
        match l {
            None => owned("unlimited"),
            Some(v) => {
                let d = decimal_text(v);
                string_of(d.as_slice())
            },
        }
    }

    /// The count of a limited budget.
    pub open spec fn as_limit(self) -> Option<u64> {
        match self {
            TokenBudget::Unlimited => None,
            TokenBudget::Limited(c) => Some(c@),
        }
    }
}

/// A limit as text: `unlimited` or the count in decimal.
pub open spec fn limit_text(l: Option<u64>) -> Seq<char> {
    match l {
        None => "unlimited"@,
        Some(v) => decimal_digits(v as nat),
    }
}

/// `Duration::from_secs`: the duration of a whole number of seconds.
pub uninterp spec fn duration_from_secs(secs: u64) -> std::time::Duration;

/// `Duration::from_secs` from std, trusted to return the same duration for the same number of
/// seconds (the value named `duration_from_secs`); nothing more is claimed of it.
#[verifier::external_body]
fn duration_of_secs(secs: u64) -> (r: std::time::Duration)
    ensures
        r == duration_from_secs(secs),
{
    std::time::Duration::from_secs(secs)
}

impl RunTimeout {
    /// The seconds of a limited timeout.
    pub open spec fn as_limit(self) -> Option<u64> {
        match self {
            RunTimeout::Unlimited => None,
            RunTimeout::Seconds(c) => Some(c@),
        }
    }

    /// The timeout of a limit that is not zero: `Unlimited` for none.
    pub fn from_limit(limit: Option<u64>) -> (r: RunTimeout)
        requires
            limit matches Some(n) ==> n > 0,
        ensures
            r.as_limit() == limit,
    {
        match limit {
            Some(n) => match NonZeroCount::new(n) {
                Some(c) => RunTimeout::Seconds(c),
                None => RunTimeout::Unlimited,
            },
            None => RunTimeout::Unlimited,
        }
    }

    /// Parses a timeout: a positive number of seconds, or unlimited/infinite/none/0.
    pub fn parse(raw: &str) -> (r: Result<RunTimeout, LimitError>)
        ensures
            match limit_meaning(raw@) {
                Ok(l) => r matches Ok(t) && t.as_limit() == l,
                Err(e) => r == Err::<RunTimeout, LimitError>(e),
            },
    {
        match parse_limit(raw) {
            Ok(l) => Ok(RunTimeout::from_limit(l)),
            Err(e) => Err(e),
        }
    }

    /// The message of a refused timeout text: `timeout ...`.
    pub fn error_message(error: &LimitError) -> (r: String)
        ensures
            r@ == limit_message(timeout_name(), *error),
    {
        limit_error_message("timeout", error)
    }

    /// The number of seconds to wait; none for no limit, and never zero.
    pub fn seconds(self) -> (r: Option<u64>)
        ensures
            r == self.as_limit(),
            r matches Some(n) ==> n > 0,
    {
        match self {
            RunTimeout::Unlimited => None,
            RunTimeout::Seconds(c) => Some(c.get()),
        }
    }

    /// The wait as a `Duration`; none for no limit.
    pub fn duration(self) -> (r: Option<std::time::Duration>)
        ensures
            r == match self.as_limit() {
                None => None::<std::time::Duration>,
                Some(v) => Some(duration_from_secs(v)),
            },
    {
        match self.seconds() {
            None => None,
            Some(value) => Some(duration_of_secs(value)),
        }
    }

    /// The timeout as text: `unlimited` or the count. Up to `LIMIT_MAX`, the text reads back
    /// as the same timeout.
    pub fn to_text(&self) -> (r: String)
        ensures
            r@ == limit_text(self.as_limit()),
            (self.as_limit() matches Some(n) ==> n <= LIMIT_MAX) ==> limit_meaning(r@) == Ok::<
                Option<u64>,
                LimitError,
            >(self.as_limit()),
    {
        let l = self.seconds();
        proof {
            if l matches Some(n) ==> n <= LIMIT_MAX {
                crate::laws::law_limit_text_round_trip(l);
            }
        }
        match l {
            None => owned("unlimited"),
            Some(v) => {
                let d = decimal_text(v);
                string_of(d.as_slice())
            },
        }
    }
}

impl std::str::FromStr for TokenBudget {
    type Err = LimitError;

    fn from_str(raw: &str) -> (r: Result<TokenBudget, LimitError>)
        ensures
            match limit_meaning(raw@) {
                Ok(l) => r matches Ok(b) && b.as_limit() == l,
                Err(e) => r == Err::<TokenBudget, LimitError>(e),
            },
    {
        TokenBudget::parse(raw)
    }
}

impl std::str::FromStr for RunTimeout {
    type Err = LimitError;

    fn from_str(raw: &str) -> (r: Result<RunTimeout, LimitError>)
        ensures
            match limit_meaning(raw@) {
                Ok(l) => r matches Ok(t) && t.as_limit() == l,
                Err(e) => r == Err::<RunTimeout, LimitError>(e),
            },
    {
        RunTimeout::parse(raw)
    }
}

// ---------------------------------------------------------------- runtime settings

/// Runtime options shared by commands that start a thread.
#[derive(Debug)]
pub struct RuntimeArgs {
    pub cwd: Option<String>,
    pub sandbox: SandboxMode,
    pub approval_policy: ApprovalPolicy,
    pub full_auto: bool,
}

/// The runtime settings sent to the app-server.
#[derive(Debug)]
pub struct EffectiveRuntime {
    pub cwd: String,
    pub sandbox: String,
    pub approval_policy: String,
}

impl RuntimeArgs {
    /// Resolves the runtime settings; `current_dir` is the working directory used when no
    /// `--cwd` was given. `--full-auto` forces `danger-full-access` and `never`.
    pub fn effective(self, current_dir: String) -> (r: EffectiveRuntime)
        ensures
            r.cwd@ == (match self.cwd {
                Some(c) => c@,
                None => current_dir@,
            }),
            r.sandbox@ == sandbox_protocol(
                if self.full_auto { SandboxMode::DangerFullAccess } else { self.sandbox },
            ),
            r.approval_policy@ == approval_protocol(
                if self.full_auto { ApprovalPolicy::Never } else { self.approval_policy },
            ),
    {
        let cwd = match self.cwd {
            Some(path) => path,
            None => current_dir,
        };
        let sandbox = if self.full_auto {
            SandboxMode::DangerFullAccess
        } else {
            self.sandbox
        };
        let approval_policy = if self.full_auto {
            ApprovalPolicy::Never
        } else {
            self.approval_policy
        };
        EffectiveRuntime {
            cwd,
            sandbox: owned(sandbox.as_protocol()),
            approval_policy: owned(approval_policy.as_protocol()),
        }
    }
}


// ---------------------------------------------------------------- command-line value names

/// The SandboxMode a command-line value names.
pub open spec fn sandbox_named(v: Seq<char>) -> Option<SandboxMode> {
    if v == "read-only"@ {
        Some(SandboxMode::ReadOnly)
    } else if v == "workspace-write"@ {
        Some(SandboxMode::WorkspaceWrite)
    } else if v == "danger-full-access"@ {
        Some(SandboxMode::DangerFullAccess)
    } else {
        None
    }
}

pub fn sandbox_from_name(v: &str) -> (r: Option<SandboxMode>)
    ensures
        r == sandbox_named(v@),
{
    if str_eq(v, "read-only") {
        Some(SandboxMode::ReadOnly)
    } else if str_eq(v, "workspace-write") {
        Some(SandboxMode::WorkspaceWrite)
    } else if str_eq(v, "danger-full-access") {
        Some(SandboxMode::DangerFullAccess)
    } else {
        None
    }
}

/// The ApprovalPolicy a command-line value names.
pub open spec fn approval_named(v: Seq<char>) -> Option<ApprovalPolicy> {
    if v == "untrusted"@ {
        Some(ApprovalPolicy::Untrusted)
    } else if v == "on-failure"@ {
        Some(ApprovalPolicy::OnFailure)
    } else if v == "on-request"@ {
        Some(ApprovalPolicy::OnRequest)
    } else if v == "never"@ {
        Some(ApprovalPolicy::Never)
    } else {
        None
    }
}

pub fn approval_from_name(v: &str) -> (r: Option<ApprovalPolicy>)
    ensures
        r == approval_named(v@),
{
    if str_eq(v, "untrusted") {
        Some(ApprovalPolicy::Untrusted)
    } else if str_eq(v, "on-failure") {
        Some(ApprovalPolicy::OnFailure)
    } else if str_eq(v, "on-request") {
        Some(ApprovalPolicy::OnRequest)
    } else if str_eq(v, "never") {
        Some(ApprovalPolicy::Never)
    } else {
        None
    }
}

/// The Effort a command-line value names.
pub open spec fn effort_named(v: Seq<char>) -> Option<Effort> {
    if v == "none"@ {
        Some(Effort::NoReasoning)
    } else if v == "minimal"@ {
        Some(Effort::Minimal)
    } else if v == "low"@ {
        Some(Effort::Low)
    } else if v == "medium"@ {
        Some(Effort::Medium)
    } else if v == "high"@ {
        Some(Effort::High)
    } else if v == "xhigh"@ {
        Some(Effort::Xhigh)
    } else {
        None
    }
}

pub fn effort_from_name(v: &str) -> (r: Option<Effort>)
    ensures
        r == effort_named(v@),
{
    if str_eq(v, "none") {
        Some(Effort::NoReasoning)
    } else if str_eq(v, "minimal") {
        Some(Effort::Minimal)
    } else if str_eq(v, "low") {
        Some(Effort::Low)
    } else if str_eq(v, "medium") {
        Some(Effort::Medium)
    } else if str_eq(v, "high") {
        Some(Effort::High)
    } else if str_eq(v, "xhigh") {
        Some(Effort::Xhigh)
    } else {
        None
    }
}

/// The GoalStatus a command-line value names.
pub open spec fn goal_status_named(v: Seq<char>) -> Option<GoalStatus> {
    if v == "active"@ {
        Some(GoalStatus::Active)
    } else if v == "paused"@ {
        Some(GoalStatus::Paused)
    } else if v == "budget-limited"@ {
        Some(GoalStatus::BudgetLimited)
    } else if v == "complete"@ {
        Some(GoalStatus::Complete)
    } else {
        None
    }
}

pub fn goal_status_from_name(v: &str) -> (r: Option<GoalStatus>)
    ensures
        r == goal_status_named(v@),
{
    if str_eq(v, "active") {
        Some(GoalStatus::Active)
    } else if str_eq(v, "paused") {
        Some(GoalStatus::Paused)
    } else if str_eq(v, "budget-limited") {
        Some(GoalStatus::BudgetLimited)
    } else if str_eq(v, "complete") {
        Some(GoalStatus::Complete)
    } else {
        None
    }
}

/// The QuestionMode a command-line value names.
pub open spec fn question_mode_named(v: Seq<char>) -> Option<QuestionMode> {
    if v == "auto-recommended"@ {
        Some(QuestionMode::AutoRecommended)
    } else if v == "auto-first"@ {
        Some(QuestionMode::AutoFirst)
    } else if v == "interactive"@ {
        Some(QuestionMode::Interactive)
    } else if v == "external"@ {
        Some(QuestionMode::External)
    } else if v == "fail"@ {
        Some(QuestionMode::Fail)
    } else {
        None
    }
}

pub fn question_mode_from_name(v: &str) -> (r: Option<QuestionMode>)
    ensures
        r == question_mode_named(v@),
{
    if str_eq(v, "auto-recommended") {
        Some(QuestionMode::AutoRecommended)
    } else if str_eq(v, "auto-first") {
        Some(QuestionMode::AutoFirst)
    } else if str_eq(v, "interactive") {
        Some(QuestionMode::Interactive)
    } else if str_eq(v, "external") {
        Some(QuestionMode::External)
    } else if str_eq(v, "fail") {
        Some(QuestionMode::Fail)
    } else {
        None
    }
}

/// The LogMode a command-line value names.
pub open spec fn log_mode_named(v: Seq<char>) -> Option<LogMode> {
    if v == "off"@ {
        Some(LogMode::Off)
    } else if v == "summary"@ {
        Some(LogMode::Summary)
    } else if v == "full"@ {
        Some(LogMode::Full)
    } else {
        None
    }
}

pub fn log_mode_from_name(v: &str) -> (r: Option<LogMode>)
    ensures
        r == log_mode_named(v@),
{
    if str_eq(v, "off") {
        Some(LogMode::Off)
    } else if str_eq(v, "summary") {
        Some(LogMode::Summary)
    } else if str_eq(v, "full") {
        Some(LogMode::Full)
    } else {
        None
    }
}

} // verus!
