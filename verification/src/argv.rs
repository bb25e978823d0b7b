use vstd::prelude::*;
use vstd::string::*;

use crate::grammar::{
    Cmd, Opt, ValueKind, cmd_has_opt, cmd_has_opt_exec, cmd_name, cmd_name_exec, cmd_parent,
    cmd_parent_exec, conflicts, conflicts_exec, is_group, is_group_exec, lemma_named_opts_complete,
    named_opts, named_opts_exec, opt_alias, opt_alias_exec, opt_kind, opt_kind_exec, opt_long,
    opt_long_exec, positional_opt, positional_opt_exec, required_opts, required_opts_exec,
    subcommands, subcommands_exec,
};
use crate::settings::{
    approval_from_name, approval_named, effort_from_name, effort_named, goal_status_from_name,
    goal_status_named, limit_meaning, log_mode_from_name, log_mode_named, parse_limit,
    question_mode_from_name, question_mode_named, sandbox_from_name, sandbox_named,
    RunTimeout, TokenBudget, limit_message, timeout_name, token_budget_name,
};
use crate::text::{
    owned, push_str, chars_eq, chars_of, find, first_occurrence, occurs_at, parse_u64, parsed_u64, slice_chars, string_of,
};

verus! {

/// Why a command line was refused, or help or the version was asked for.
#[derive(Debug, Clone, Copy, PartialEq, Eq, Structural)]
pub enum CliErrorKind {
    Help,
    Version,
    UnknownArgument,
    UnknownSubcommand,
    MissingValue,
    UnexpectedValue,
    Duplicate,
    UnexpectedPositional,
    InvalidValue,
    MissingSubcommand,
    MissingRequired,
    Conflict,
}

/// A refused command line: the kind, the argument or option name it concerns, and for a refused
/// value the option it was given to.
#[derive(Debug)]
pub struct CliError {
    pub kind: CliErrorKind,
    pub token: String,
    pub option: Option<Opt>,
}

pub struct CliErrorV {
    pub kind: CliErrorKind,
    pub token: Seq<char>,
    pub option: Option<Opt>,
}

impl View for CliError {
    type V = CliErrorV;

    open spec fn view(&self) -> CliErrorV {
        CliErrorV { kind: self.kind, token: self.token@, option: self.option }
    }
}

pub open spec fn err(kind: CliErrorKind, token: Seq<char>) -> CliErrorV {
    CliErrorV { kind, token, option: None }
}

/// The value `v` given to option `o` is refused.
pub open spec fn invalid_value(o: Opt, v: Seq<char>) -> CliErrorV {
    CliErrorV { kind: CliErrorKind::InvalidValue, token: v, option: Some(o) }
}

/// The state of a left-to-right reading of the arguments: the command reached, the options
/// and positional arguments seen (flags with an empty value), and whether `--` was read.
pub struct ScanV {
    pub cmd: Cmd,
    pub occs: Seq<(Opt, Seq<char>)>,
    pub only_positional: bool,
}

pub open spec fn initial_scan() -> ScanV {
    ScanV { cmd: Cmd::Root, occs: Seq::empty(), only_positional: false }
}

// ---------------------------------------------------------------- lookups

pub open spec fn opt_matches(o: Opt, name: Seq<char>) -> bool {
    opt_long(o) == name || opt_alias(o) == Some(name)
}

pub open spec fn first_opt(s: Seq<Opt>, c: Cmd, name: Seq<char>) -> Option<Opt>
    decreases s.len(),
{
    if s.len() == 0 {
        None
    } else if cmd_has_opt(c, s[0]) && opt_matches(s[0], name) {
        Some(s[0])
    } else {
        first_opt(s.drop_first(), c, name)
    }
}

/// The option of command `c` named `name` by its long name or alias.
#[verifier::opaque]
pub open spec fn find_opt(c: Cmd, name: Seq<char>) -> Option<Opt> {
    first_opt(named_opts(), c, name)
}

pub open spec fn first_sub(s: Seq<Cmd>, c: Cmd, name: Seq<char>) -> Option<Cmd>
    decreases s.len(),
{
    if s.len() == 0 {
        None
    } else if cmd_parent(s[0]) == Some(c) && cmd_name(s[0]) == name {
        Some(s[0])
    } else {
        first_sub(s.drop_first(), c, name)
    }
}

/// The subcommand of `c` named `name`.
#[verifier::opaque]
pub open spec fn find_sub(c: Cmd, name: Seq<char>) -> Option<Cmd> {
    first_sub(subcommands(), c, name)
}

proof fn lemma_first_opt(s: Seq<Opt>, c: Cmd, name: Seq<char>)
    ensures
        match first_opt(s, c, name) {
            Some(o) => s.contains(o) && cmd_has_opt(c, o) && opt_matches(o, name),
            None => forall|k: int| 0 <= k < s.len() ==> !(cmd_has_opt(c, #[trigger] s[k])
                && opt_matches(s[k], name)),
        },
    decreases s.len(),
{
    if s.len() > 0 {
        lemma_first_opt(s.drop_first(), c, name);
        if !(cmd_has_opt(c, s[0]) && opt_matches(s[0], name)) {
            if let Some(o) = first_opt(s.drop_first(), c, name) {
                let k = choose|k: int| 0 <= k < s.drop_first().len() && s.drop_first()[k] == o;
                assert(s[k + 1] == o);
            } else {
                assert forall|k: int| 0 <= k < s.len() implies !(cmd_has_opt(c, #[trigger] s[k])
                    && opt_matches(s[k], name)) by {
                    if k > 0 {
                        assert(s[k] == s.drop_first()[k - 1]);
                    }
                }
            }
        } else {
            assert(s[0] == s[0]);
            assert(s.contains(s[0]));
        }
    }
}

/// What `find_opt` finds: an option of `c` with that name; when it finds none, `c` has no
/// option of that name.
pub proof fn lemma_find_opt(c: Cmd, name: Seq<char>)
    ensures
        match find_opt(c, name) {
            Some(o) => cmd_has_opt(c, o) && opt_matches(o, name),
            None => forall|o: Opt|
                o != Opt::Method && o != Opt::File && cmd_has_opt(c, o) ==> !opt_matches(o, name),
        },
{
    reveal(find_opt);
    lemma_first_opt(named_opts(), c, name);
    if find_opt(c, name) is None {
        assert forall|o: Opt|
            o != Opt::Method && o != Opt::File && cmd_has_opt(c, o) implies !opt_matches(
            o,
            name,
        ) by {
            lemma_named_opts_complete(o);
            let k = choose|k: int| 0 <= k < named_opts().len() && named_opts()[k] == o;
            assert(!(cmd_has_opt(c, named_opts()[k]) && opt_matches(named_opts()[k], name)));
        }
    }
}

// ---------------------------------------------------------------- one step

pub open spec fn is_long(t: Seq<char>) -> bool {
    t.len() > 2 && t[0] == '-' && t[1] == '-'
}

pub open spec fn is_short(t: Seq<char>) -> bool {
    t.len() >= 2 && t[0] == '-'
}

/// A following argument that cannot be an option's value: it reads as an option itself.
pub open spec fn looks_like_flag(v: Seq<char>) -> bool {
    v.len() >= 2 && v[0] == '-'
}

/// `name=value` split at its first `=`.
pub open spec fn split_eq(body: Seq<char>) -> (Seq<char>, Option<Seq<char>>) {
    match first_occurrence(body, seq!['=']) {
        Some(k) => (body.take(k), Some(body.skip(k + 1))),
        None => (body, None),
    }
}

pub open spec fn takes_value(o: Opt) -> bool {
    opt_kind(o) != ValueKind::Flag
}

pub open spec fn has_occ(occs: Seq<(Opt, Seq<char>)>, o: Opt) -> bool {
    exists|k: int| 0 <= k < occs.len() && (#[trigger] occs[k]).0 == o
}

/// The value text is one that option `o` accepts.
#[verifier::opaque]
pub open spec fn value_ok(o: Opt, v: Seq<char>) -> bool {
    match opt_kind(o) {
        ValueKind::Text | ValueKind::Flag | ValueKind::Multi => true,
        ValueKind::LogModeName => log_mode_named(v) is Some,
        ValueKind::GoalStatusName => goal_status_named(v) is Some,
        ValueKind::SandboxName => sandbox_named(v) is Some,
        ValueKind::ApprovalName => approval_named(v) is Some,
        ValueKind::QuestionModeName => question_mode_named(v) is Some,
        ValueKind::EffortName => effort_named(v) is Some,
        ValueKind::Budget | ValueKind::Timeout => limit_meaning(v) is Ok,
        ValueKind::Count => parsed_u64(v) is Some,
        ValueKind::Size => parsed_u64(v) matches Some(n) && n <= usize::MAX,
    }
}

/// Records one occurrence of `o` with value `v`, read from argument `t`. An option given twice
/// is refused unless it collects values.
pub open spec fn add_occ(st: ScanV, o: Opt, v: Seq<char>, t: Seq<char>) -> Result<ScanV, CliErrorV> {
    if opt_kind(o) != ValueKind::Multi && has_occ(st.occs, o) {
        Err(err(CliErrorKind::Duplicate, t))
    } else if !value_ok(o, v) {
        Err(invalid_value(o, v))
    } else {
        Ok(ScanV { occs: st.occs.push((o, v)), ..st })
    }
}

pub open spec fn with_next(r: Result<ScanV, CliErrorV>, took: bool) -> Result<(ScanV, bool), CliErrorV> {
    match r {
        Ok(s) => Ok((s, took)),
        Err(e) => Err(e),
    }
}

/// Reads the long option `t` (`--name` or `--name=value`) at position `i`.
pub open spec fn step_long(args: Seq<Seq<char>>, i: int, st: ScanV) -> Result<(ScanV, bool), CliErrorV> {
    let t = args[i];
    let (name, inline) = split_eq(t.skip(2));
    if name == "help"@ {
        Err(err(CliErrorKind::Help, t))
    } else if name == "version"@ && st.cmd == Cmd::Root {
        Err(err(CliErrorKind::Version, t))
    } else {
        match find_opt(st.cmd, name) {
            None => Err(err(CliErrorKind::UnknownArgument, t)),
            Some(o) => if takes_value(o) {
                match inline {
                    Some(v) => with_next(add_occ(st, o, v, t), false),
                    None => if i + 1 < args.len() && !looks_like_flag(args[i + 1]) {
                        with_next(add_occ(st, o, args[i + 1], t), true)
                    } else {
                        Err(err(CliErrorKind::MissingValue, t))
                    },
                }
            } else {
                if inline is Some {
                    Err(err(CliErrorKind::UnexpectedValue, t))
                } else {
                    with_next(add_occ(st, o, Seq::empty(), t), false)
                }
            },
        }
    }
}

/// Reads the non-option argument `t`: a subcommand name, or the command's positional argument.
pub open spec fn step_word(t: Seq<char>, st: ScanV) -> Result<(ScanV, bool), CliErrorV> {
    if is_group(st.cmd) {
        match find_sub(st.cmd, t) {
            Some(d) => Ok((ScanV { cmd: d, ..st }, false)),
            None => if t == "help"@ {
                Err(err(CliErrorKind::Help, t))
            } else {
                Err(err(CliErrorKind::UnknownSubcommand, t))
            },
        }
    } else {
        match positional_opt(st.cmd) {
            Some(p) => if has_occ(st.occs, p) {
                Err(err(CliErrorKind::UnexpectedPositional, t))
            } else {
                Ok((ScanV { occs: st.occs.push((p, t)), ..st }, false))
            },
            None => Err(err(CliErrorKind::UnexpectedPositional, t)),
        }
    }
}

/// Reads argument `i`; the flag says whether the following argument was taken as a value.
pub open spec fn step(args: Seq<Seq<char>>, i: int, st: ScanV) -> Result<(ScanV, bool), CliErrorV> {
    let t = args[i];
    if !st.only_positional && t == "--"@ {
        Ok((ScanV { only_positional: true, ..st }, false))
    } else if !st.only_positional && is_long(t) {
        step_long(args, i, st)
    } else if !st.only_positional && is_short(t) {
        if t == "-h"@ {
            Err(err(CliErrorKind::Help, t))
        } else if t == "-V"@ && st.cmd == Cmd::Root {
            Err(err(CliErrorKind::Version, t))
        } else {
            Err(err(CliErrorKind::UnknownArgument, t))
        }
    } else {
        step_word(t, st)
    }
}

/// Reads the arguments from position `i` on.
pub open spec fn scan(args: Seq<Seq<char>>, i: int, st: ScanV) -> Result<ScanV, CliErrorV>
    decreases args.len() - i,
{
    if i < 0 || i >= args.len() {
        Ok(st)
    } else {
        match step(args, i, st) {
            Err(e) => Err(e),
            Ok((s2, took)) => scan(args, i + 1 + (if took { 1int } else { 0int }), s2),
        }
    }
}

pub open spec fn first_conflict(occs: Seq<(Opt, Seq<char>)>, pairs: Seq<(Opt, Opt)>) -> Option<Opt>
    decreases pairs.len(),
{
    if pairs.len() == 0 {
        None
    } else if has_occ(occs, pairs[0].0) && has_occ(occs, pairs[0].1) {
        Some(pairs[0].0)
    } else {
        first_conflict(occs, pairs.drop_first())
    }
}

pub open spec fn first_missing(occs: Seq<(Opt, Seq<char>)>, req: Seq<Opt>) -> Option<Opt>
    decreases req.len(),
{
    if req.len() == 0 {
        None
    } else if !has_occ(occs, req[0]) {
        Some(req[0])
    } else {
        first_missing(occs, req.drop_first())
    }
}

/// The checks after reading: a subcommand was chosen, no conflicting pair was given, and every
/// required argument was given.
pub open spec fn finish(st: ScanV) -> Result<ScanV, CliErrorV> {
    if is_group(st.cmd) {
        Err(err(CliErrorKind::MissingSubcommand, Seq::empty()))
    } else {
        match first_conflict(st.occs, conflicts(st.cmd)) {
            Some(a) => Err(err(CliErrorKind::Conflict, opt_long(a))),
            None => match first_missing(st.occs, required_opts(st.cmd)) {
                Some(o) => Err(err(CliErrorKind::MissingRequired, opt_long(o))),
                None => Ok(st),
            },
        }
    }
}

/// How a command line reads: the first argument names the program, the rest are read left to
/// right, then checked.
pub open spec fn read_command_line(args: Seq<Seq<char>>) -> Result<ScanV, CliErrorV> {
    match scan(args, 1, initial_scan()) {
        Ok(st) => finish(st),
        Err(e) => Err(e),
    }
}

// ---------------------------------------------------------------- executable reading

/// The reading state of `read_args`.
pub struct Scan {
    pub cmd: Cmd,
    pub occs: Vec<(Opt, Vec<char>)>,
    pub only_positional: bool,
}

pub open spec fn occs_view(v: Seq<(Opt, Vec<char>)>) -> Seq<(Opt, Seq<char>)> {
    v.map_values(|e: (Opt, Vec<char>)| (e.0, e.1@))
}

impl Scan {
    pub open spec fn model(&self) -> ScanV {
        ScanV { cmd: self.cmd, occs: occs_view(self.occs@), only_positional: self.only_positional }
    }
}

fn lit_eq(v: &[char], lit: &str) -> (r: bool)
    ensures
        r == (v@ == lit@),
{
    let l = chars_of(lit);
    chars_eq(v, l.as_slice())
}

fn error_of(kind: CliErrorKind, token: &[char]) -> (r: CliError)
    ensures
        r@ == err(kind, token@),
{
    CliError { kind, token: string_of(token), option: None }
}

fn opt_matches_exec(o: Opt, name: &[char]) -> (r: bool)
    ensures
        r == opt_matches(o, name@),
{
    if lit_eq(name, opt_long_exec(o)) {
        return true;
    }
    match opt_alias_exec(o) {
        Some(a) => lit_eq(name, a),
        None => false,
    }
}

/// Looks up an option of `c` by name.
pub fn find_opt_exec(c: Cmd, name: &[char]) -> (r: Option<Opt>)
    ensures
        r == find_opt(c, name@),
{
    reveal(find_opt);
    let all = named_opts_exec();
    let mut i: usize = 0;
    assert(all@.skip(0) =~= all@);
    while i < all.len()
        invariant
            i <= all.len(),
            all@ == named_opts(),
            find_opt(c, name@) == first_opt(all@.skip(i as int), c, name@),
        decreases all.len() - i,
    {
        assert(all@.skip(i as int).drop_first() =~= all@.skip(i + 1));
        let o = all[i];
        if cmd_has_opt_exec(c, o) && opt_matches_exec(o, name) {
            return Some(o);
        }
        i = i + 1;
    }
    None
}

/// Looks up a subcommand of `c` by name.
pub fn find_sub_exec(c: Cmd, name: &[char]) -> (r: Option<Cmd>)
    ensures
        r == find_sub(c, name@),
{
    reveal(find_sub);
    let all = subcommands_exec();
    let mut i: usize = 0;
    assert(all@.skip(0) =~= all@);
    while i < all.len()
        invariant
            i <= all.len(),
            all@ == subcommands(),
            find_sub(c, name@) == first_sub(all@.skip(i as int), c, name@),
        decreases all.len() - i,
    {
        assert(all@.skip(i as int).drop_first() =~= all@.skip(i + 1));
        let d = all[i];
        if d != Cmd::Root && cmd_parent_exec(d) == Some(c) && lit_eq(name, cmd_name_exec(d)) {
            return Some(d);
        }
        i = i + 1;
    }
    None
}

fn value_ok_exec(o: Opt, v: &[char]) -> (r: bool)
    ensures
        r == value_ok(o, v@),
{
    reveal(value_ok);
    let s = string_of(v);
    let t = s.as_str();
    match opt_kind_exec(o) {
        ValueKind::Text | ValueKind::Flag | ValueKind::Multi => true,
        ValueKind::LogModeName => log_mode_from_name(t).is_some(),
        ValueKind::GoalStatusName => goal_status_from_name(t).is_some(),
        ValueKind::SandboxName => sandbox_from_name(t).is_some(),
        ValueKind::ApprovalName => approval_from_name(t).is_some(),
        ValueKind::QuestionModeName => question_mode_from_name(t).is_some(),
        ValueKind::EffortName => effort_from_name(t).is_some(),
        ValueKind::Budget | ValueKind::Timeout => parse_limit(t).is_ok(),
        ValueKind::Count => parse_u64(v).is_some(),
        ValueKind::Size => match parse_u64(v) {
            Some(n) => n <= usize::MAX as u64,
            None => false,
        },
    }
}

/// Whether option `o` was seen.
pub fn has_occ_exec(occs: &Vec<(Opt, Vec<char>)>, o: Opt) -> (r: bool)
    ensures
        r == has_occ(occs_view(occs@), o),
{
    let ghost m = occs_view(occs@);
    let mut i: usize = 0;
    while i < occs.len()
        invariant
            i <= occs.len(),
            m == occs_view(occs@),
            forall|k: int| 0 <= k < i ==> (#[trigger] m[k]).0 != o,
        decreases occs.len() - i,
    {
        assert(m[i as int].0 == occs@[i as int].0);
        if occs[i].0 == o {
            return true;
        }
        i = i + 1;
    }
    false
}

fn add_occ_exec(st: &mut Scan, o: Opt, v: Vec<char>, t: &[char]) -> (r: Result<(), CliError>)
    ensures
        match add_occ(old(st).model(), o, v@, t@) {
            Ok(s2) => r is Ok && final(st).model() == s2,
            Err(e) => r matches Err(x) && x@ == e,
        },
{
    if opt_kind_exec(o) != ValueKind::Multi && has_occ_exec(&st.occs, o) {
        return Err(error_of(CliErrorKind::Duplicate, t));
    }
    if !value_ok_exec(o, v.as_slice()) {
        return Err(CliError { kind: CliErrorKind::InvalidValue, token: string_of(v.as_slice()), option: Some(o) });
    }
    let ghost vv = v@;
    st.occs.push((o, v));
    assert(occs_view(st.occs@) =~= occs_view(old(st).occs@).push((o, vv)));
    Ok(())
}

fn split_eq_exec(body: &[char]) -> (r: (Vec<char>, Option<Vec<char>>))
    ensures
        r.0@ == split_eq(body@).0,
        match r.1 {
            Some(v) => split_eq(body@).1 == Some(v@),
            None => split_eq(body@).1 is None,
        },
{
    let eq: Vec<char> = vec!['='];
    assert(eq@ =~= seq!['=']);
    match find(body, eq.as_slice()) {
        Some(k) => {
            assert(eq@.len() == 1);
            assert(occurs_at(body@, eq@, k as int));
            let blen = body.len();
            assert(k + 1 <= blen);
            let n = slice_chars(body, 0, k);
            let v = slice_chars(body, k + 1, body.len());
            assert(n@ =~= body@.take(k as int));
            assert(v@ =~= body@.skip(k + 1));
            (n, Some(v))
        },
        None => (slice_chars(body, 0, body.len()), None),
    }
}

fn step_long_exec(args: &Vec<Vec<char>>, i: usize, st: &mut Scan) -> (r: Result<bool, CliError>)
    requires
        i < args.len(),
        is_long(args@[i as int]@),
    ensures
        match step_long(args@.map_values(|a: Vec<char>| a@), i as int, old(st).model()) {
            Ok((s2, took)) => r == Ok::<bool, CliError>(took) && final(st).model() == s2,
            Err(e) => r matches Err(x) && x@ == e,
        },
{
    let ghost av = args@.map_values(|a: Vec<char>| a@);
    let t = &args[i];
    assert(av[i as int] == t@);
    let body = slice_chars(t.as_slice(), 2, t.len());
    assert(body@ =~= t@.skip(2));
    let (name, inline) = split_eq_exec(body.as_slice());
    if lit_eq(name.as_slice(), "help") {
        return Err(error_of(CliErrorKind::Help, t.as_slice()));
    }
    if lit_eq(name.as_slice(), "version") && st.cmd == Cmd::Root {
        return Err(error_of(CliErrorKind::Version, t.as_slice()));
    }
    match find_opt_exec(st.cmd, name.as_slice()) {
        None => {
            return Err(error_of(CliErrorKind::UnknownArgument, t.as_slice()));
        },
        Some(o) => {
            if opt_kind_exec(o) != ValueKind::Flag {
                match inline {
                    Some(v) => {
                        add_occ_exec(st, o, v, t.as_slice())?;
                        return Ok(false);
                    },
                    None => {
                        if i + 1 < args.len() && !(args[i + 1].len() >= 2 && args[i
                            + 1][0] == '-') {
                            assert(av[i + 1] == args@[i + 1]@);
                            let v = slice_chars(args[i + 1].as_slice(), 0, args[i + 1].len());
                            assert(v@ =~= args@[i + 1]@);
                            add_occ_exec(st, o, v, t.as_slice())?;
                            return Ok(true);
                        } else {
                            proof {
                                if i + 1 < args.len() {
                                    assert(av[i + 1] == args@[i + 1]@);
                                }
                            }
                            return Err(error_of(CliErrorKind::MissingValue, t.as_slice()));
                        }
                    },
                }
            } else {
                if inline.is_some() {
                    return Err(error_of(CliErrorKind::UnexpectedValue, t.as_slice()));
                }
                let empty: Vec<char> = Vec::new();
                assert(empty@ =~= Seq::<char>::empty());
                add_occ_exec(st, o, empty, t.as_slice())?;
                return Ok(false);
            }
        },
    }
}

/// Reads argument `i`; says whether the following argument was taken as a value.
fn step_exec(args: &Vec<Vec<char>>, i: usize, st: &mut Scan) -> (r: Result<bool, CliError>)
    requires
        i < args.len(),
    ensures
        match step(args@.map_values(|a: Vec<char>| a@), i as int, old(st).model()) {
            Ok((s2, took)) => r == Ok::<bool, CliError>(took) && final(st).model() == s2,
            Err(e) => r matches Err(x) && x@ == e,
        },
{
    let ghost av = args@.map_values(|a: Vec<char>| a@);
    let t = &args[i];
    assert(av[i as int] == t@);
    if !st.only_positional && lit_eq(t.as_slice(), "--") {
        st.only_positional = true;
        return Ok(false);
    }
    if !st.only_positional && t.len() > 2 && t[0] == '-' && t[1] == '-' {
        return step_long_exec(args, i, st);
    }
    if !st.only_positional && t.len() >= 2 && t[0] == '-' {
        if lit_eq(t.as_slice(), "-h") {
            return Err(error_of(CliErrorKind::Help, t.as_slice()));
        }
        if lit_eq(t.as_slice(), "-V") && st.cmd == Cmd::Root {
            return Err(error_of(CliErrorKind::Version, t.as_slice()));
        }
        return Err(error_of(CliErrorKind::UnknownArgument, t.as_slice()));
    }
    if is_group_exec(st.cmd) {
        match find_sub_exec(st.cmd, t.as_slice()) {
            Some(d) => {
                st.cmd = d;
                return Ok(false);
            },
            None => {
                if lit_eq(t.as_slice(), "help") {
                    return Err(error_of(CliErrorKind::Help, t.as_slice()));
                }
                return Err(error_of(CliErrorKind::UnknownSubcommand, t.as_slice()));
            },
        }
    }
    match positional_opt_exec(st.cmd) {
        Some(p) => {
            if has_occ_exec(&st.occs, p) {
                return Err(error_of(CliErrorKind::UnexpectedPositional, t.as_slice()));
            }
            let v = slice_chars(t.as_slice(), 0, t.len());
            assert(v@ =~= t@);
            let ghost vv = v@;
            st.occs.push((p, v));
            assert(occs_view(st.occs@) =~= occs_view(old(st).occs@).push((p, vv)));
            Ok(false)
        },
        None => Err(error_of(CliErrorKind::UnexpectedPositional, t.as_slice())),
    }
}

fn first_conflict_exec(occs: &Vec<(Opt, Vec<char>)>, pairs: &Vec<(Opt, Opt)>) -> (r: Option<Opt>)
    ensures
        r == first_conflict(occs_view(occs@), pairs@),
{
    let mut i: usize = 0;
    assert(pairs@.skip(0) =~= pairs@);
    while i < pairs.len()
        invariant
            i <= pairs.len(),
            first_conflict(occs_view(occs@), pairs@) == first_conflict(
                occs_view(occs@),
                pairs@.skip(i as int),
            ),
        decreases pairs.len() - i,
    {
        assert(pairs@.skip(i as int).drop_first() =~= pairs@.skip(i + 1));
        let (a, b) = pairs[i];
        if has_occ_exec(occs, a) && has_occ_exec(occs, b) {
            return Some(a);
        }
        i = i + 1;
    }
    None
}

fn first_missing_exec(occs: &Vec<(Opt, Vec<char>)>, req: &Vec<Opt>) -> (r: Option<Opt>)
    ensures
        r == first_missing(occs_view(occs@), req@),
{
    let mut i: usize = 0;
    assert(req@.skip(0) =~= req@);
    while i < req.len()
        invariant
            i <= req.len(),
            first_missing(occs_view(occs@), req@) == first_missing(
                occs_view(occs@),
                req@.skip(i as int),
            ),
        decreases req.len() - i,
    {
        assert(req@.skip(i as int).drop_first() =~= req@.skip(i + 1));
        if !has_occ_exec(occs, req[i]) {
            return Some(req[i]);
        }
        i = i + 1;
    }
    None
}

/// Reads a command line (program name first) as `read_command_line` says.
pub fn read_args(args: &[&str]) -> (r: Result<Scan, CliError>)
    ensures
        match read_command_line(args@.map_values(|a: &str| a@)) {
            Ok(s) => r matches Ok(x) && x.model() == s,
            Err(e) => r matches Err(x) && x@ == e,
        },
{
    let mut toks: Vec<Vec<char>> = Vec::new();
    let mut k: usize = 0;
    while k < args.len()
        invariant
            k <= args.len(),
            toks@.len() == k,
            forall|j: int| 0 <= j < k ==> (#[trigger] toks@[j])@ == args@[j]@,
        decreases args.len() - k,
    {
        let c = chars_of(args[k]);
        toks.push(c);
        k = k + 1;
    }
    let ghost av = toks@.map_values(|a: Vec<char>| a@);
    assert(av =~= args@.map_values(|a: &str| a@));
    let mut st = Scan { cmd: Cmd::Root, occs: Vec::new(), only_positional: false };
    assert(st.model() == initial_scan()) by {
        assert(occs_view(st.occs@) =~= Seq::<(Opt, Seq<char>)>::empty());
    }
    let mut i: usize = 1;
    while i < toks.len()
        invariant
            1 <= i,
            av == toks@.map_values(|a: Vec<char>| a@),
            av == args@.map_values(|a: &str| a@),
            scan(av, 1, initial_scan()) == scan(av, i as int, st.model()),
        decreases toks.len() - i,
    {
        let ghost before = st.model();
        let took = match step_exec(&toks, i, &mut st) {
            Ok(b) => b,
            Err(e) => {
                assert(scan(av, i as int, before) == Err::<ScanV, CliErrorV>(e@));
                return Err(e);
            },
        };
        if took {
            i = i + 2;
        } else {
            i = i + 1;
        }
    }
    let ghost fin = st.model();
    if is_group_exec(st.cmd) {
        let empty: Vec<char> = Vec::new();
        assert(empty@ =~= Seq::<char>::empty());
        return Err(error_of(CliErrorKind::MissingSubcommand, empty.as_slice()));
    }
    let pairs = conflicts_exec(st.cmd);
    if let Some(a) = first_conflict_exec(&st.occs, &pairs) {
        let n = chars_of(opt_long_exec(a));
        return Err(error_of(CliErrorKind::Conflict, n.as_slice()));
    }
    let req = required_opts_exec(st.cmd);
    if let Some(o) = first_missing_exec(&st.occs, &req) {
        let n = chars_of(opt_long_exec(o));
        return Err(error_of(CliErrorKind::MissingRequired, n.as_slice()));
    }
    Ok(st)
}

/// Why a budget or timeout text was refused, told with the setting's name.
pub open spec fn limit_reason(o: Opt, v: Seq<char>) -> Option<Seq<char>> {
    match opt_kind(o) {
        ValueKind::Budget => match limit_meaning(v) {
            Err(e) => Some(limit_message(token_budget_name(), e)),
            Ok(_) => None,
        },
        ValueKind::Timeout => match limit_meaning(v) {
            Err(e) => Some(limit_message(timeout_name(), e)),
            Ok(_) => None,
        },
        _ => None,
    }
}

/// What a refused command line is told as; empty where help or the version was asked for.
pub open spec fn cli_error_text(e: CliErrorV) -> Seq<char> {
    let t = e.token;
    match e.kind {
        CliErrorKind::Help | CliErrorKind::Version => Seq::<char>::empty(),
        CliErrorKind::UnknownArgument => "error: unexpected argument '"@ + t + "' found"@,
        CliErrorKind::UnknownSubcommand => "error: unrecognized subcommand '"@ + t + "'"@,
        CliErrorKind::MissingValue => "error: a value is required for '"@ + t
            + "' but none was supplied"@,
        CliErrorKind::UnexpectedValue => "error: unexpected value for '"@ + t + "'"@,
        CliErrorKind::Duplicate => "error: the argument '"@ + t + "' cannot be used multiple times"@,
        CliErrorKind::UnexpectedPositional => "error: unexpected argument '"@ + t + "' found"@,
        CliErrorKind::InvalidValue => match e.option {
            Some(o) => "error: "@ + invalid_value_text(o, t),
            None => "error: invalid value '"@ + t + "'"@,
        },
        CliErrorKind::MissingSubcommand => "error: a subcommand is required"@,
        CliErrorKind::MissingRequired => "error: the following required argument was not provided: "@
            + t,
        CliErrorKind::Conflict => "error: the argument '"@ + t
            + "' cannot be used with one of the other arguments"@,
    }
}

impl CliError {
    /// The message of the refusal; empty where help or the version was asked for.
    pub fn message(&self) -> (r: String)
        ensures
            r@ == cli_error_text(self@),
    {
        let t = self.token.as_str();
        match self.kind {
            CliErrorKind::Help | CliErrorKind::Version => String::new(),
            CliErrorKind::UnknownArgument | CliErrorKind::UnexpectedPositional => {
                let mut out = owned("error: unexpected argument '");
                push_str(&mut out, t);
                push_str(&mut out, "' found");
                out
            },
            CliErrorKind::UnknownSubcommand => {
                let mut out = owned("error: unrecognized subcommand '");
                push_str(&mut out, t);
                push_str(&mut out, "'");
                out
            },
            CliErrorKind::MissingValue => {
                let mut out = owned("error: a value is required for '");
                push_str(&mut out, t);
                push_str(&mut out, "' but none was supplied");
                out
            },
            CliErrorKind::UnexpectedValue => {
                let mut out = owned("error: unexpected value for '");
                push_str(&mut out, t);
                push_str(&mut out, "'");
                out
            },
            CliErrorKind::Duplicate => {
                let mut out = owned("error: the argument '");
                push_str(&mut out, t);
                push_str(&mut out, "' cannot be used multiple times");
                out
            },
            CliErrorKind::InvalidValue => match self.option {
                Some(o) => {
                    let mut out = owned("error: ");
                    let m = invalid_value_message(o, t);
                    push_str(&mut out, m.as_str());
                    out
                },
                None => {
                    let mut out = owned("error: invalid value '");
                    push_str(&mut out, t);
                    push_str(&mut out, "'");
                    out
                },
            },
            CliErrorKind::MissingSubcommand => owned("error: a subcommand is required"),
            CliErrorKind::MissingRequired => {
                let mut out = owned("error: the following required argument was not provided: ");
                push_str(&mut out, t);
                out
            },
            CliErrorKind::Conflict => {
                let mut out = owned("error: the argument '");
                push_str(&mut out, t);
                push_str(&mut out, "' cannot be used with one of the other arguments");
                out
            },
        }
    }
}

/// The message of a refused option value: the value and the option, and for a budget or a
/// timeout why its text is refused.
pub open spec fn invalid_value_text(o: Opt, v: Seq<char>) -> Seq<char> {
    let head = "invalid value '"@ + v + "' for '--"@ + opt_long(o) + "'"@;
    match limit_reason(o, v) {
        Some(reason) => head + ": "@ + reason,
        None => head,
    }
}

pub fn invalid_value_message(o: Opt, value: &str) -> (r: String)
    ensures
        r@ == invalid_value_text(o, value@),
{
    let mut out = owned("invalid value '");
    push_str(&mut out, value);
    push_str(&mut out, "' for '--");
    push_str(&mut out, opt_long_exec(o));
    push_str(&mut out, "'");
    let reason: Option<String> = match opt_kind_exec(o) {
        ValueKind::Budget => match parse_limit(value) {
            Err(e) => Some(TokenBudget::error_message(&e)),
            Ok(_) => None,
        },
        ValueKind::Timeout => match parse_limit(value) {
            Err(e) => Some(RunTimeout::error_message(&e)),
            Ok(_) => None,
        },
        _ => None,
    };
    match reason {
        Some(text) => {
            push_str(&mut out, ": ");
            push_str(&mut out, text.as_str());
        },
        None => {},
    }
    out
}

} // verus!
