use vstd::prelude::*;

use crate::text::chars_eq;
use crate::text::chars_of;

verus! {

/// A named option or a positional argument of the command line.
#[derive(Debug, Clone, Copy, PartialEq, Eq, Structural)]
pub enum Opt {
    CodexBin,
    CodexHome,
    LogDir,
    LogMode,
    SessionSocket,
    Params,
    ParamsFile,
    IncludeEvents,
    ThreadId,
    MetadataOnly,
    Compact,
    RunId,
    Out,
    ViewerHtml,
    NoOpen,
    Objective,
    TokenBudget,
    Status,
    Cwd,
    Sandbox,
    ApprovalPolicy,
    FullAuto,
    Prompt,
    PromptFile,
    QuestionMode,
    Effort,
    Model,
    Jsonl,
    Timeout,
    Detach,
    VersionDir,
    Answer,
    AnswersJson,
    AnswersFile,
    Pick,
    Full,
    IntervalMs,
    Threads,
    Limit,
    Question,
    Method,
    File,
}

/// A command or subcommand of the command line; `Root` is the program itself.
#[derive(Debug, Clone, Copy, PartialEq, Eq, Structural)]
pub enum Cmd {
    Root,
    Doctor,
    Guide,
    Methods,
    Modes,
    Features,
    Account,
    Quota,
    Models,
    Status,
    Read,
    Raw,
    Goal,
    GoalSet,
    GoalGet,
    GoalClear,
    Plan,
    Answer,
    View,
    Session,
    SessionStart,
    SessionAnswer,
    SessionSend,
    SessionExecute,
    SessionResume,
    SessionRead,
    SessionWatch,
    SessionInterrupt,
    SessionList,
    SessionStop,
    Daemon,
    DaemonStart,
    DaemonStatus,
    DaemonList,
    DaemonStop,
    DaemonServe,
}

/// What an option holds.
#[derive(Debug, Clone, Copy, PartialEq, Eq, Structural)]
pub enum ValueKind {
    Text,
    Flag,
    Multi,
    LogModeName,
    GoalStatusName,
    SandboxName,
    ApprovalName,
    QuestionModeName,
    EffortName,
    Budget,
    Timeout,
    Count,
    Size,
}

/// The long name of an option (for a positional argument, its value name).
pub open spec fn opt_long(o: Opt) -> Seq<char> {
    match o {
        Opt::CodexBin => "codex-bin"@,
        Opt::CodexHome => "codex-home"@,
        Opt::LogDir => "log-dir"@,
        Opt::LogMode => "log-mode"@,
        Opt::SessionSocket => "session-socket"@,
        Opt::Params => "params"@,
        Opt::ParamsFile => "params-file"@,
        Opt::IncludeEvents => "include-events"@,
        Opt::ThreadId => "thread-id"@,
        Opt::MetadataOnly => "metadata-only"@,
        Opt::Compact => "compact"@,
        Opt::RunId => "run-id"@,
        Opt::Out => "out"@,
        Opt::ViewerHtml => "viewer-html"@,
        Opt::NoOpen => "no-open"@,
        Opt::Objective => "objective"@,
        Opt::TokenBudget => "token-budget"@,
        Opt::Status => "status"@,
        Opt::Cwd => "cwd"@,
        Opt::Sandbox => "sandbox"@,
        Opt::ApprovalPolicy => "approval-policy"@,
        Opt::FullAuto => "full-auto"@,
        Opt::Prompt => "prompt"@,
        Opt::PromptFile => "prompt-file"@,
        Opt::QuestionMode => "question-mode"@,
        Opt::Effort => "effort"@,
        Opt::Model => "model"@,
        Opt::Jsonl => "jsonl"@,
        Opt::Timeout => "timeout"@,
        Opt::Detach => "detach"@,
        Opt::VersionDir => "version-dir"@,
        Opt::Answer => "answer"@,
        Opt::AnswersJson => "answers-json"@,
        Opt::AnswersFile => "answers-file"@,
        Opt::Pick => "pick"@,
        Opt::Full => "full"@,
        Opt::IntervalMs => "interval-ms"@,
        Opt::Threads => "threads"@,
        Opt::Limit => "limit"@,
        Opt::Question => "question"@,
        Opt::Method => "method"@,
        Opt::File => "file"@,
    }
}

/// The visible alias of an option.
pub open spec fn opt_alias(o: Opt) -> Option<Seq<char>> {
    match o {
        Opt::CodexHome => Some("account-home"@),
        Opt::FullAuto => Some("dangerously-full-access"@),
        Opt::Effort => Some("reasoning-effort"@),
        Opt::Timeout => Some("timeout-secs"@),
        _ => None,
    }
}

pub open spec fn opt_kind(o: Opt) -> ValueKind {
    match o {
        Opt::CodexBin => ValueKind::Text,
        Opt::CodexHome => ValueKind::Text,
        Opt::LogDir => ValueKind::Text,
        Opt::LogMode => ValueKind::LogModeName,
        Opt::SessionSocket => ValueKind::Text,
        Opt::Params => ValueKind::Text,
        Opt::ParamsFile => ValueKind::Text,
        Opt::IncludeEvents => ValueKind::Flag,
        Opt::ThreadId => ValueKind::Text,
        Opt::MetadataOnly => ValueKind::Flag,
        Opt::Compact => ValueKind::Flag,
        Opt::RunId => ValueKind::Text,
        Opt::Out => ValueKind::Text,
        Opt::ViewerHtml => ValueKind::Text,
        Opt::NoOpen => ValueKind::Flag,
        Opt::Objective => ValueKind::Text,
        Opt::TokenBudget => ValueKind::Budget,
        Opt::Status => ValueKind::GoalStatusName,
        Opt::Cwd => ValueKind::Text,
        Opt::Sandbox => ValueKind::SandboxName,
        Opt::ApprovalPolicy => ValueKind::ApprovalName,
        Opt::FullAuto => ValueKind::Flag,
        Opt::Prompt => ValueKind::Text,
        Opt::PromptFile => ValueKind::Text,
        Opt::QuestionMode => ValueKind::QuestionModeName,
        Opt::Effort => ValueKind::EffortName,
        Opt::Model => ValueKind::Text,
        Opt::Jsonl => ValueKind::Flag,
        Opt::Timeout => ValueKind::Timeout,
        Opt::Detach => ValueKind::Flag,
        Opt::VersionDir => ValueKind::Text,
        Opt::Answer => ValueKind::Multi,
        Opt::AnswersJson => ValueKind::Text,
        Opt::AnswersFile => ValueKind::Text,
        Opt::Pick => ValueKind::Text,
        Opt::Full => ValueKind::Flag,
        Opt::IntervalMs => ValueKind::Count,
        Opt::Threads => ValueKind::Flag,
        Opt::Limit => ValueKind::Size,
        Opt::Question => ValueKind::Text,
        Opt::Method => ValueKind::Text,
        Opt::File => ValueKind::Text,
    }
}

/// The options accepted by every command.
pub open spec fn is_global(o: Opt) -> bool {
    o == Opt::CodexBin || o == Opt::CodexHome || o == Opt::LogDir || o == Opt::LogMode || o == Opt::SessionSocket
}

/// The options of one command besides the global ones.
pub open spec fn local_opt(c: Cmd, o: Opt) -> bool {
    match c {
        Cmd::Read => o == Opt::ThreadId || o == Opt::MetadataOnly || o == Opt::Compact,
        Cmd::Raw => o == Opt::Params || o == Opt::ParamsFile || o == Opt::IncludeEvents,
        Cmd::GoalSet => o == Opt::ThreadId || o == Opt::Objective || o == Opt::TokenBudget || o == Opt::Status || o == Opt::Cwd || o == Opt::Sandbox || o == Opt::ApprovalPolicy || o == Opt::FullAuto,
        Cmd::GoalGet => o == Opt::ThreadId,
        Cmd::GoalClear => o == Opt::ThreadId,
        Cmd::Plan => o == Opt::Prompt || o == Opt::PromptFile || o == Opt::Objective || o == Opt::TokenBudget || o == Opt::QuestionMode || o == Opt::Effort || o == Opt::Model || o == Opt::Jsonl || o == Opt::Timeout || o == Opt::Cwd || o == Opt::Sandbox || o == Opt::ApprovalPolicy || o == Opt::FullAuto,
        Cmd::Answer => o == Opt::Question || o == Opt::Answer,
        Cmd::View => o == Opt::RunId || o == Opt::Out || o == Opt::ViewerHtml || o == Opt::NoOpen,
        Cmd::SessionStart => o == Opt::Prompt || o == Opt::PromptFile || o == Opt::Objective || o == Opt::TokenBudget || o == Opt::Effort || o == Opt::Model || o == Opt::Timeout || o == Opt::Detach || o == Opt::QuestionMode || o == Opt::VersionDir || o == Opt::Cwd || o == Opt::Sandbox || o == Opt::ApprovalPolicy || o == Opt::FullAuto,
        Cmd::SessionAnswer => o == Opt::RunId || o == Opt::Answer || o == Opt::AnswersJson || o == Opt::AnswersFile || o == Opt::Pick || o == Opt::Timeout || o == Opt::Detach,
        Cmd::SessionSend => o == Opt::RunId || o == Opt::Prompt || o == Opt::PromptFile || o == Opt::Effort || o == Opt::Model || o == Opt::Timeout || o == Opt::Detach,
        Cmd::SessionExecute => o == Opt::RunId || o == Opt::Prompt || o == Opt::PromptFile || o == Opt::Effort || o == Opt::Model || o == Opt::Timeout || o == Opt::Detach,
        Cmd::SessionResume => o == Opt::ThreadId || o == Opt::Effort || o == Opt::Model || o == Opt::Cwd || o == Opt::Sandbox || o == Opt::ApprovalPolicy || o == Opt::FullAuto,
        Cmd::SessionRead => o == Opt::RunId || o == Opt::Full,
        Cmd::SessionWatch => o == Opt::RunId || o == Opt::IntervalMs || o == Opt::Full,
        Cmd::SessionInterrupt => o == Opt::RunId,
        Cmd::SessionList => o == Opt::Threads || o == Opt::Limit,
        Cmd::SessionStop => o == Opt::RunId,
        _ => false,
    }
}

/// Option `o` may be named on the command line of `c`.
pub open spec fn cmd_has_opt(c: Cmd, o: Opt) -> bool {
    is_global(o) || local_opt(c, o)
}

/// The command that `c` is a subcommand of.
pub open spec fn cmd_parent(c: Cmd) -> Option<Cmd> {
    match c {
        Cmd::Root => None,
        Cmd::Doctor => Some(Cmd::Root),
        Cmd::Guide => Some(Cmd::Root),
        Cmd::Methods => Some(Cmd::Root),
        Cmd::Modes => Some(Cmd::Root),
        Cmd::Features => Some(Cmd::Root),
        Cmd::Account => Some(Cmd::Root),
        Cmd::Quota => Some(Cmd::Root),
        Cmd::Models => Some(Cmd::Root),
        Cmd::Status => Some(Cmd::Root),
        Cmd::Read => Some(Cmd::Root),
        Cmd::Raw => Some(Cmd::Root),
        Cmd::Goal => Some(Cmd::Root),
        Cmd::GoalSet => Some(Cmd::Goal),
        Cmd::GoalGet => Some(Cmd::Goal),
        Cmd::GoalClear => Some(Cmd::Goal),
        Cmd::Plan => Some(Cmd::Root),
        Cmd::Answer => Some(Cmd::Root),
        Cmd::View => Some(Cmd::Root),
        Cmd::Session => Some(Cmd::Root),
        Cmd::SessionStart => Some(Cmd::Session),
        Cmd::SessionAnswer => Some(Cmd::Session),
        Cmd::SessionSend => Some(Cmd::Session),
        Cmd::SessionExecute => Some(Cmd::Session),
        Cmd::SessionResume => Some(Cmd::Session),
        Cmd::SessionRead => Some(Cmd::Session),
        Cmd::SessionWatch => Some(Cmd::Session),
        Cmd::SessionInterrupt => Some(Cmd::Session),
        Cmd::SessionList => Some(Cmd::Session),
        Cmd::SessionStop => Some(Cmd::Session),
        Cmd::Daemon => Some(Cmd::Root),
        Cmd::DaemonStart => Some(Cmd::Daemon),
        Cmd::DaemonStatus => Some(Cmd::Daemon),
        Cmd::DaemonList => Some(Cmd::Daemon),
        Cmd::DaemonStop => Some(Cmd::Daemon),
        Cmd::DaemonServe => Some(Cmd::Daemon),
    }
}

/// The name under which a subcommand is invoked.
pub open spec fn cmd_name(c: Cmd) -> Seq<char> {
    match c {
        Cmd::Root => Seq::empty(),
        Cmd::Doctor => "doctor"@,
        Cmd::Guide => "guide"@,
        Cmd::Methods => "methods"@,
        Cmd::Modes => "modes"@,
        Cmd::Features => "features"@,
        Cmd::Account => "account"@,
        Cmd::Quota => "quota"@,
        Cmd::Models => "models"@,
        Cmd::Status => "status"@,
        Cmd::Read => "read"@,
        Cmd::Raw => "raw"@,
        Cmd::Goal => "goal"@,
        Cmd::GoalSet => "set"@,
        Cmd::GoalGet => "get"@,
        Cmd::GoalClear => "clear"@,
        Cmd::Plan => "plan"@,
        Cmd::Answer => "answer"@,
        Cmd::View => "view"@,
        Cmd::Session => "session"@,
        Cmd::SessionStart => "start"@,
        Cmd::SessionAnswer => "answer"@,
        Cmd::SessionSend => "send"@,
        Cmd::SessionExecute => "execute"@,
        Cmd::SessionResume => "resume"@,
        Cmd::SessionRead => "read"@,
        Cmd::SessionWatch => "watch"@,
        Cmd::SessionInterrupt => "interrupt"@,
        Cmd::SessionList => "list"@,
        Cmd::SessionStop => "stop"@,
        Cmd::Daemon => "daemon"@,
        Cmd::DaemonStart => "start"@,
        Cmd::DaemonStatus => "status"@,
        Cmd::DaemonList => "list"@,
        Cmd::DaemonStop => "stop"@,
        Cmd::DaemonServe => "serve"@,
    }
}

/// A command that only groups subcommands: one of them must follow.
pub open spec fn is_group(c: Cmd) -> bool {
    c == Cmd::Root || c == Cmd::Goal || c == Cmd::Session || c == Cmd::Daemon
}

/// The positional argument of a command.
pub open spec fn positional_opt(c: Cmd) -> Option<Opt> {
    match c {
        Cmd::Raw => Some(Opt::Method),
        Cmd::View => Some(Opt::File),
        _ => None,
    }
}

/// The arguments a command cannot do without, in the order they are checked.
pub open spec fn required_opts(c: Cmd) -> Seq<Opt> {
    match c {
        Cmd::Read => seq![Opt::ThreadId],
        Cmd::Raw => seq![Opt::Method],
        Cmd::GoalSet => seq![Opt::Objective],
        Cmd::GoalGet => seq![Opt::ThreadId],
        Cmd::GoalClear => seq![Opt::ThreadId],
        Cmd::Answer => seq![Opt::Question],
        Cmd::SessionAnswer => seq![Opt::RunId],
        Cmd::SessionSend => seq![Opt::RunId],
        Cmd::SessionExecute => seq![Opt::RunId],
        Cmd::SessionResume => seq![Opt::ThreadId],
        Cmd::SessionRead => seq![Opt::RunId],
        Cmd::SessionWatch => seq![Opt::RunId],
        Cmd::SessionInterrupt => seq![Opt::RunId],
        Cmd::SessionStop => seq![Opt::RunId],
        _ => Seq::empty(),
    }
}

/// The pairs of arguments that cannot be given together, in the order they are checked.
pub open spec fn conflicts(c: Cmd) -> Seq<(Opt, Opt)> {
    match c {
        Cmd::Plan => seq![(Opt::Prompt, Opt::PromptFile)],
        Cmd::View => seq![(Opt::File, Opt::RunId)],
        Cmd::SessionStart => seq![(Opt::Prompt, Opt::PromptFile)],
        Cmd::SessionAnswer => seq![(Opt::AnswersJson, Opt::AnswersFile), (Opt::Pick, Opt::Answer), (Opt::Pick, Opt::AnswersJson), (Opt::Pick, Opt::AnswersFile)],
        Cmd::SessionSend => seq![(Opt::Prompt, Opt::PromptFile)],
        Cmd::SessionExecute => seq![(Opt::Prompt, Opt::PromptFile)],
        _ => Seq::empty(),
    }
}

/// Every named option, in lookup order.
pub open spec fn named_opts() -> Seq<Opt> {
    seq![Opt::CodexBin, Opt::CodexHome, Opt::LogDir, Opt::LogMode, Opt::SessionSocket, Opt::Params, Opt::ParamsFile, Opt::IncludeEvents, Opt::ThreadId, Opt::MetadataOnly, Opt::Compact, Opt::RunId, Opt::Out, Opt::ViewerHtml, Opt::NoOpen, Opt::Objective, Opt::TokenBudget, Opt::Status, Opt::Cwd, Opt::Sandbox, Opt::ApprovalPolicy, Opt::FullAuto, Opt::Prompt, Opt::PromptFile, Opt::QuestionMode, Opt::Effort, Opt::Model, Opt::Jsonl, Opt::Timeout, Opt::Detach, Opt::VersionDir, Opt::Answer, Opt::AnswersJson, Opt::AnswersFile, Opt::Pick, Opt::Full, Opt::IntervalMs, Opt::Threads, Opt::Limit, Opt::Question]
}

/// Every subcommand, in lookup order.
pub open spec fn subcommands() -> Seq<Cmd> {
    seq![Cmd::Doctor, Cmd::Guide, Cmd::Methods, Cmd::Modes, Cmd::Features, Cmd::Account, Cmd::Quota, Cmd::Models, Cmd::Status, Cmd::Read, Cmd::Raw, Cmd::Goal, Cmd::GoalSet, Cmd::GoalGet, Cmd::GoalClear, Cmd::Plan, Cmd::Answer, Cmd::View, Cmd::Session, Cmd::SessionStart, Cmd::SessionAnswer, Cmd::SessionSend, Cmd::SessionExecute, Cmd::SessionResume, Cmd::SessionRead, Cmd::SessionWatch, Cmd::SessionInterrupt, Cmd::SessionList, Cmd::SessionStop, Cmd::Daemon, Cmd::DaemonStart, Cmd::DaemonStatus, Cmd::DaemonList, Cmd::DaemonStop, Cmd::DaemonServe]
}

pub proof fn lemma_named_opts_complete(o: Opt)
    requires
        o != Opt::Method && o != Opt::File,
    ensures
        named_opts().contains(o),
{
    match o {
        Opt::CodexBin => assert(named_opts()[0] == o),
        Opt::CodexHome => assert(named_opts()[1] == o),
        Opt::LogDir => assert(named_opts()[2] == o),
        Opt::LogMode => assert(named_opts()[3] == o),
        Opt::SessionSocket => assert(named_opts()[4] == o),
        Opt::Params => assert(named_opts()[5] == o),
        Opt::ParamsFile => assert(named_opts()[6] == o),
        Opt::IncludeEvents => assert(named_opts()[7] == o),
        Opt::ThreadId => assert(named_opts()[8] == o),
        Opt::MetadataOnly => assert(named_opts()[9] == o),
        Opt::Compact => assert(named_opts()[10] == o),
        Opt::RunId => assert(named_opts()[11] == o),
        Opt::Out => assert(named_opts()[12] == o),
        Opt::ViewerHtml => assert(named_opts()[13] == o),
        Opt::NoOpen => assert(named_opts()[14] == o),
        Opt::Objective => assert(named_opts()[15] == o),
        Opt::TokenBudget => assert(named_opts()[16] == o),
        Opt::Status => assert(named_opts()[17] == o),
        Opt::Cwd => assert(named_opts()[18] == o),
        Opt::Sandbox => assert(named_opts()[19] == o),
        Opt::ApprovalPolicy => assert(named_opts()[20] == o),
        Opt::FullAuto => assert(named_opts()[21] == o),
        Opt::Prompt => assert(named_opts()[22] == o),
        Opt::PromptFile => assert(named_opts()[23] == o),
        Opt::QuestionMode => assert(named_opts()[24] == o),
        Opt::Effort => assert(named_opts()[25] == o),
        Opt::Model => assert(named_opts()[26] == o),
        Opt::Jsonl => assert(named_opts()[27] == o),
        Opt::Timeout => assert(named_opts()[28] == o),
        Opt::Detach => assert(named_opts()[29] == o),
        Opt::VersionDir => assert(named_opts()[30] == o),
        Opt::Answer => assert(named_opts()[31] == o),
        Opt::AnswersJson => assert(named_opts()[32] == o),
        Opt::AnswersFile => assert(named_opts()[33] == o),
        Opt::Pick => assert(named_opts()[34] == o),
        Opt::Full => assert(named_opts()[35] == o),
        Opt::IntervalMs => assert(named_opts()[36] == o),
        Opt::Threads => assert(named_opts()[37] == o),
        Opt::Limit => assert(named_opts()[38] == o),
        Opt::Question => assert(named_opts()[39] == o),
        _ => {},
    }
}

pub proof fn lemma_subcommands_complete(c: Cmd)
    requires
        c != Cmd::Root,
    ensures
        subcommands().contains(c),
{
    match c {
        Cmd::Doctor => assert(subcommands()[0] == c),
        Cmd::Guide => assert(subcommands()[1] == c),
        Cmd::Methods => assert(subcommands()[2] == c),
        Cmd::Modes => assert(subcommands()[3] == c),
        Cmd::Features => assert(subcommands()[4] == c),
        Cmd::Account => assert(subcommands()[5] == c),
        Cmd::Quota => assert(subcommands()[6] == c),
        Cmd::Models => assert(subcommands()[7] == c),
        Cmd::Status => assert(subcommands()[8] == c),
        Cmd::Read => assert(subcommands()[9] == c),
        Cmd::Raw => assert(subcommands()[10] == c),
        Cmd::Goal => assert(subcommands()[11] == c),
        Cmd::GoalSet => assert(subcommands()[12] == c),
        Cmd::GoalGet => assert(subcommands()[13] == c),
        Cmd::GoalClear => assert(subcommands()[14] == c),
        Cmd::Plan => assert(subcommands()[15] == c),
        Cmd::Answer => assert(subcommands()[16] == c),
        Cmd::View => assert(subcommands()[17] == c),
        Cmd::Session => assert(subcommands()[18] == c),
        Cmd::SessionStart => assert(subcommands()[19] == c),
        Cmd::SessionAnswer => assert(subcommands()[20] == c),
        Cmd::SessionSend => assert(subcommands()[21] == c),
        Cmd::SessionExecute => assert(subcommands()[22] == c),
        Cmd::SessionResume => assert(subcommands()[23] == c),
        Cmd::SessionRead => assert(subcommands()[24] == c),
        Cmd::SessionWatch => assert(subcommands()[25] == c),
        Cmd::SessionInterrupt => assert(subcommands()[26] == c),
        Cmd::SessionList => assert(subcommands()[27] == c),
        Cmd::SessionStop => assert(subcommands()[28] == c),
        Cmd::Daemon => assert(subcommands()[29] == c),
        Cmd::DaemonStart => assert(subcommands()[30] == c),
        Cmd::DaemonStatus => assert(subcommands()[31] == c),
        Cmd::DaemonList => assert(subcommands()[32] == c),
        Cmd::DaemonStop => assert(subcommands()[33] == c),
        Cmd::DaemonServe => assert(subcommands()[34] == c),
        _ => {},
    }
}

pub fn opt_long_exec(o: Opt) -> (r: &'static str)
    ensures
        r@ == opt_long(o),
{
    match o {
        Opt::CodexBin => "codex-bin",
        Opt::CodexHome => "codex-home",
        Opt::LogDir => "log-dir",
        Opt::LogMode => "log-mode",
        Opt::SessionSocket => "session-socket",
        Opt::Params => "params",
        Opt::ParamsFile => "params-file",
        Opt::IncludeEvents => "include-events",
        Opt::ThreadId => "thread-id",
        Opt::MetadataOnly => "metadata-only",
        Opt::Compact => "compact",
        Opt::RunId => "run-id",
        Opt::Out => "out",
        Opt::ViewerHtml => "viewer-html",
        Opt::NoOpen => "no-open",
        Opt::Objective => "objective",
        Opt::TokenBudget => "token-budget",
        Opt::Status => "status",
        Opt::Cwd => "cwd",
        Opt::Sandbox => "sandbox",
        Opt::ApprovalPolicy => "approval-policy",
        Opt::FullAuto => "full-auto",
        Opt::Prompt => "prompt",
        Opt::PromptFile => "prompt-file",
        Opt::QuestionMode => "question-mode",
        Opt::Effort => "effort",
        Opt::Model => "model",
        Opt::Jsonl => "jsonl",
        Opt::Timeout => "timeout",
        Opt::Detach => "detach",
        Opt::VersionDir => "version-dir",
        Opt::Answer => "answer",
        Opt::AnswersJson => "answers-json",
        Opt::AnswersFile => "answers-file",
        Opt::Pick => "pick",
        Opt::Full => "full",
        Opt::IntervalMs => "interval-ms",
        Opt::Threads => "threads",
        Opt::Limit => "limit",
        Opt::Question => "question",
        Opt::Method => "method",
        Opt::File => "file",
    }
}

pub fn opt_alias_exec(o: Opt) -> (r: Option<&'static str>)
    ensures
        match r {
            Some(a) => opt_alias(o) == Some(a@),
            None => opt_alias(o) is None,
        },
{
    match o {
        Opt::CodexHome => Some("account-home"),
        Opt::FullAuto => Some("dangerously-full-access"),
        Opt::Effort => Some("reasoning-effort"),
        Opt::Timeout => Some("timeout-secs"),
        _ => None,
    }
}

pub fn opt_kind_exec(o: Opt) -> (r: ValueKind)
    ensures
        r == opt_kind(o),
{
    match o {
        Opt::CodexBin => ValueKind::Text,
        Opt::CodexHome => ValueKind::Text,
        Opt::LogDir => ValueKind::Text,
        Opt::LogMode => ValueKind::LogModeName,
        Opt::SessionSocket => ValueKind::Text,
        Opt::Params => ValueKind::Text,
        Opt::ParamsFile => ValueKind::Text,
        Opt::IncludeEvents => ValueKind::Flag,
        Opt::ThreadId => ValueKind::Text,
        Opt::MetadataOnly => ValueKind::Flag,
        Opt::Compact => ValueKind::Flag,
        Opt::RunId => ValueKind::Text,
        Opt::Out => ValueKind::Text,
        Opt::ViewerHtml => ValueKind::Text,
        Opt::NoOpen => ValueKind::Flag,
        Opt::Objective => ValueKind::Text,
        Opt::TokenBudget => ValueKind::Budget,
        Opt::Status => ValueKind::GoalStatusName,
        Opt::Cwd => ValueKind::Text,
        Opt::Sandbox => ValueKind::SandboxName,
        Opt::ApprovalPolicy => ValueKind::ApprovalName,
        Opt::FullAuto => ValueKind::Flag,
        Opt::Prompt => ValueKind::Text,
        Opt::PromptFile => ValueKind::Text,
        Opt::QuestionMode => ValueKind::QuestionModeName,
        Opt::Effort => ValueKind::EffortName,
        Opt::Model => ValueKind::Text,
        Opt::Jsonl => ValueKind::Flag,
        Opt::Timeout => ValueKind::Timeout,
        Opt::Detach => ValueKind::Flag,
        Opt::VersionDir => ValueKind::Text,
        Opt::Answer => ValueKind::Multi,
        Opt::AnswersJson => ValueKind::Text,
        Opt::AnswersFile => ValueKind::Text,
        Opt::Pick => ValueKind::Text,
        Opt::Full => ValueKind::Flag,
        Opt::IntervalMs => ValueKind::Count,
        Opt::Threads => ValueKind::Flag,
        Opt::Limit => ValueKind::Size,
        Opt::Question => ValueKind::Text,
        Opt::Method => ValueKind::Text,
        Opt::File => ValueKind::Text,
    }
}

pub fn cmd_has_opt_exec(c: Cmd, o: Opt) -> (r: bool)
    ensures
        r == cmd_has_opt(c, o),
{
    if o == Opt::CodexBin || o == Opt::CodexHome || o == Opt::LogDir || o == Opt::LogMode || o == Opt::SessionSocket {
        return true;
    }
    match c {
        Cmd::Read => o == Opt::ThreadId || o == Opt::MetadataOnly || o == Opt::Compact,
        Cmd::Raw => o == Opt::Params || o == Opt::ParamsFile || o == Opt::IncludeEvents,
        Cmd::GoalSet => o == Opt::ThreadId || o == Opt::Objective || o == Opt::TokenBudget || o == Opt::Status || o == Opt::Cwd || o == Opt::Sandbox || o == Opt::ApprovalPolicy || o == Opt::FullAuto,
        Cmd::GoalGet => o == Opt::ThreadId,
        Cmd::GoalClear => o == Opt::ThreadId,
        Cmd::Plan => o == Opt::Prompt || o == Opt::PromptFile || o == Opt::Objective || o == Opt::TokenBudget || o == Opt::QuestionMode || o == Opt::Effort || o == Opt::Model || o == Opt::Jsonl || o == Opt::Timeout || o == Opt::Cwd || o == Opt::Sandbox || o == Opt::ApprovalPolicy || o == Opt::FullAuto,
        Cmd::Answer => o == Opt::Question || o == Opt::Answer,
        Cmd::View => o == Opt::RunId || o == Opt::Out || o == Opt::ViewerHtml || o == Opt::NoOpen,
        Cmd::SessionStart => o == Opt::Prompt || o == Opt::PromptFile || o == Opt::Objective || o == Opt::TokenBudget || o == Opt::Effort || o == Opt::Model || o == Opt::Timeout || o == Opt::Detach || o == Opt::QuestionMode || o == Opt::VersionDir || o == Opt::Cwd || o == Opt::Sandbox || o == Opt::ApprovalPolicy || o == Opt::FullAuto,
        Cmd::SessionAnswer => o == Opt::RunId || o == Opt::Answer || o == Opt::AnswersJson || o == Opt::AnswersFile || o == Opt::Pick || o == Opt::Timeout || o == Opt::Detach,
        Cmd::SessionSend => o == Opt::RunId || o == Opt::Prompt || o == Opt::PromptFile || o == Opt::Effort || o == Opt::Model || o == Opt::Timeout || o == Opt::Detach,
        Cmd::SessionExecute => o == Opt::RunId || o == Opt::Prompt || o == Opt::PromptFile || o == Opt::Effort || o == Opt::Model || o == Opt::Timeout || o == Opt::Detach,
        Cmd::SessionResume => o == Opt::ThreadId || o == Opt::Effort || o == Opt::Model || o == Opt::Cwd || o == Opt::Sandbox || o == Opt::ApprovalPolicy || o == Opt::FullAuto,
        Cmd::SessionRead => o == Opt::RunId || o == Opt::Full,
        Cmd::SessionWatch => o == Opt::RunId || o == Opt::IntervalMs || o == Opt::Full,
        Cmd::SessionInterrupt => o == Opt::RunId,
        Cmd::SessionList => o == Opt::Threads || o == Opt::Limit,
        Cmd::SessionStop => o == Opt::RunId,
        _ => false,
    }
}

pub fn cmd_parent_exec(c: Cmd) -> (r: Option<Cmd>)
    ensures
        r == cmd_parent(c),
{
    match c {
        Cmd::Root => None,
        Cmd::Doctor => Some(Cmd::Root),
        Cmd::Guide => Some(Cmd::Root),
        Cmd::Methods => Some(Cmd::Root),
        Cmd::Modes => Some(Cmd::Root),
        Cmd::Features => Some(Cmd::Root),
        Cmd::Account => Some(Cmd::Root),
        Cmd::Quota => Some(Cmd::Root),
        Cmd::Models => Some(Cmd::Root),
        Cmd::Status => Some(Cmd::Root),
        Cmd::Read => Some(Cmd::Root),
        Cmd::Raw => Some(Cmd::Root),
        Cmd::Goal => Some(Cmd::Root),
        Cmd::GoalSet => Some(Cmd::Goal),
        Cmd::GoalGet => Some(Cmd::Goal),
        Cmd::GoalClear => Some(Cmd::Goal),
        Cmd::Plan => Some(Cmd::Root),
        Cmd::Answer => Some(Cmd::Root),
        Cmd::View => Some(Cmd::Root),
        Cmd::Session => Some(Cmd::Root),
        Cmd::SessionStart => Some(Cmd::Session),
        Cmd::SessionAnswer => Some(Cmd::Session),
        Cmd::SessionSend => Some(Cmd::Session),
        Cmd::SessionExecute => Some(Cmd::Session),
        Cmd::SessionResume => Some(Cmd::Session),
        Cmd::SessionRead => Some(Cmd::Session),
        Cmd::SessionWatch => Some(Cmd::Session),
        Cmd::SessionInterrupt => Some(Cmd::Session),
        Cmd::SessionList => Some(Cmd::Session),
        Cmd::SessionStop => Some(Cmd::Session),
        Cmd::Daemon => Some(Cmd::Root),
        Cmd::DaemonStart => Some(Cmd::Daemon),
        Cmd::DaemonStatus => Some(Cmd::Daemon),
        Cmd::DaemonList => Some(Cmd::Daemon),
        Cmd::DaemonStop => Some(Cmd::Daemon),
        Cmd::DaemonServe => Some(Cmd::Daemon),
    }
}

pub fn cmd_name_exec(c: Cmd) -> (r: &'static str)
    requires
        c != Cmd::Root,
    ensures
        r@ == cmd_name(c),
{
    match c {
        Cmd::Doctor => "doctor",
        Cmd::Guide => "guide",
        Cmd::Methods => "methods",
        Cmd::Modes => "modes",
        Cmd::Features => "features",
        Cmd::Account => "account",
        Cmd::Quota => "quota",
        Cmd::Models => "models",
        Cmd::Status => "status",
        Cmd::Read => "read",
        Cmd::Raw => "raw",
        Cmd::Goal => "goal",
        Cmd::GoalSet => "set",
        Cmd::GoalGet => "get",
        Cmd::GoalClear => "clear",
        Cmd::Plan => "plan",
        Cmd::Answer => "answer",
        Cmd::View => "view",
        Cmd::Session => "session",
        Cmd::SessionStart => "start",
        Cmd::SessionAnswer => "answer",
        Cmd::SessionSend => "send",
        Cmd::SessionExecute => "execute",
        Cmd::SessionResume => "resume",
        Cmd::SessionRead => "read",
        Cmd::SessionWatch => "watch",
        Cmd::SessionInterrupt => "interrupt",
        Cmd::SessionList => "list",
        Cmd::SessionStop => "stop",
        Cmd::Daemon => "daemon",
        Cmd::DaemonStart => "start",
        Cmd::DaemonStatus => "status",
        Cmd::DaemonList => "list",
        Cmd::DaemonStop => "stop",
        Cmd::DaemonServe => "serve",
        Cmd::Root => "",
    }
}

pub fn is_group_exec(c: Cmd) -> (r: bool)
    ensures
        r == is_group(c),
{
    c == Cmd::Root || c == Cmd::Goal || c == Cmd::Session || c == Cmd::Daemon
}

pub fn positional_opt_exec(c: Cmd) -> (r: Option<Opt>)
    ensures
        r == positional_opt(c),
{
    match c {
        Cmd::Raw => Some(Opt::Method),
        Cmd::View => Some(Opt::File),
        _ => None,
    }
}

pub fn required_opts_exec(c: Cmd) -> (r: Vec<Opt>)
    ensures
        r@ == required_opts(c),
{
    let mut v: Vec<Opt> = Vec::new();
    match c {
        Cmd::Read => {
            v.push(Opt::ThreadId);
        },
        Cmd::Raw => {
            v.push(Opt::Method);
        },
        Cmd::GoalSet => {
            v.push(Opt::Objective);
        },
        Cmd::GoalGet => {
            v.push(Opt::ThreadId);
        },
        Cmd::GoalClear => {
            v.push(Opt::ThreadId);
        },
        Cmd::Answer => {
            v.push(Opt::Question);
        },
        Cmd::SessionAnswer => {
            v.push(Opt::RunId);
        },
        Cmd::SessionSend => {
            v.push(Opt::RunId);
        },
        Cmd::SessionExecute => {
            v.push(Opt::RunId);
        },
        Cmd::SessionResume => {
            v.push(Opt::ThreadId);
        },
        Cmd::SessionRead => {
            v.push(Opt::RunId);
        },
        Cmd::SessionWatch => {
            v.push(Opt::RunId);
        },
        Cmd::SessionInterrupt => {
            v.push(Opt::RunId);
        },
        Cmd::SessionStop => {
            v.push(Opt::RunId);
        },
        _ => {},
    }
    assert(v@ =~= required_opts(c));
    v
}

pub fn conflicts_exec(c: Cmd) -> (r: Vec<(Opt, Opt)>)
    ensures
        r@ == conflicts(c),
{
    let mut v: Vec<(Opt, Opt)> = Vec::new();
    match c {
        Cmd::Plan => {
            v.push((Opt::Prompt, Opt::PromptFile));
        },
        Cmd::View => {
            v.push((Opt::File, Opt::RunId));
        },
        Cmd::SessionStart => {
            v.push((Opt::Prompt, Opt::PromptFile));
        },
        Cmd::SessionAnswer => {
            v.push((Opt::AnswersJson, Opt::AnswersFile));
            v.push((Opt::Pick, Opt::Answer));
            v.push((Opt::Pick, Opt::AnswersJson));
            v.push((Opt::Pick, Opt::AnswersFile));
        },
        Cmd::SessionSend => {
            v.push((Opt::Prompt, Opt::PromptFile));
        },
        Cmd::SessionExecute => {
            v.push((Opt::Prompt, Opt::PromptFile));
        },
        _ => {},
    }
    assert(v@ =~= conflicts(c));
    v
}

pub fn named_opts_exec() -> (r: Vec<Opt>)
    ensures
        r@ == named_opts(),
{
    let mut v: Vec<Opt> = Vec::new();
    v.push(Opt::CodexBin);
    v.push(Opt::CodexHome);
    v.push(Opt::LogDir);
    v.push(Opt::LogMode);
    v.push(Opt::SessionSocket);
    v.push(Opt::Params);
    v.push(Opt::ParamsFile);
    v.push(Opt::IncludeEvents);
    v.push(Opt::ThreadId);
    v.push(Opt::MetadataOnly);
    v.push(Opt::Compact);
    v.push(Opt::RunId);
    v.push(Opt::Out);
    v.push(Opt::ViewerHtml);
    v.push(Opt::NoOpen);
    v.push(Opt::Objective);
    v.push(Opt::TokenBudget);
    v.push(Opt::Status);
    v.push(Opt::Cwd);
    v.push(Opt::Sandbox);
    v.push(Opt::ApprovalPolicy);
    v.push(Opt::FullAuto);
    v.push(Opt::Prompt);
    v.push(Opt::PromptFile);
    v.push(Opt::QuestionMode);
    v.push(Opt::Effort);
    v.push(Opt::Model);
    v.push(Opt::Jsonl);
    v.push(Opt::Timeout);
    v.push(Opt::Detach);
    v.push(Opt::VersionDir);
    v.push(Opt::Answer);
    v.push(Opt::AnswersJson);
    v.push(Opt::AnswersFile);
    v.push(Opt::Pick);
    v.push(Opt::Full);
    v.push(Opt::IntervalMs);
    v.push(Opt::Threads);
    v.push(Opt::Limit);
    v.push(Opt::Question);
    assert(v@ =~= named_opts());
    v
}

pub fn subcommands_exec() -> (r: Vec<Cmd>)
    ensures
        r@ == subcommands(),
{
    let mut v: Vec<Cmd> = Vec::new();
    v.push(Cmd::Doctor);
    v.push(Cmd::Guide);
    v.push(Cmd::Methods);
    v.push(Cmd::Modes);
    v.push(Cmd::Features);
    v.push(Cmd::Account);
    v.push(Cmd::Quota);
    v.push(Cmd::Models);
    v.push(Cmd::Status);
    v.push(Cmd::Read);
    v.push(Cmd::Raw);
    v.push(Cmd::Goal);
    v.push(Cmd::GoalSet);
    v.push(Cmd::GoalGet);
    v.push(Cmd::GoalClear);
    v.push(Cmd::Plan);
    v.push(Cmd::Answer);
    v.push(Cmd::View);
    v.push(Cmd::Session);
    v.push(Cmd::SessionStart);
    v.push(Cmd::SessionAnswer);
    v.push(Cmd::SessionSend);
    v.push(Cmd::SessionExecute);
    v.push(Cmd::SessionResume);
    v.push(Cmd::SessionRead);
    v.push(Cmd::SessionWatch);
    v.push(Cmd::SessionInterrupt);
    v.push(Cmd::SessionList);
    v.push(Cmd::SessionStop);
    v.push(Cmd::Daemon);
    v.push(Cmd::DaemonStart);
    v.push(Cmd::DaemonStatus);
    v.push(Cmd::DaemonList);
    v.push(Cmd::DaemonStop);
    v.push(Cmd::DaemonServe);
    assert(v@ =~= subcommands());
    v
}

} // verus!
