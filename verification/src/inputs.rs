use vstd::prelude::*;
use vstd::string::*;

use crate::json::{Json, JsonV, ObjectBuilder, jget, str_array, string_array, strs};
use crate::questions::answers_payload;
use crate::text::{chars_eq, chars_of, find, first_occurrence, occurs_at, owned, push_str, slice_chars, string_of, trim_bounds, trimmed};

verus! {

/// Why the inputs of a command could not be used.
#[derive(Debug)]
pub enum InputError {
    /// Both `--prompt` and `--prompt-file`.
    BothPromptSources,
    /// Neither `--prompt` nor `--prompt-file`.
    NoPrompt,
    /// Both a JSON text and a JSON file for the same parameters.
    BothParamsSources,
    /// `--answer` pairs together with `--answers-json` or `--answers-file`.
    MixedAnswerSources,
    /// Neither `--answer` pairs nor raw answers.
    NoAnswers,
    /// An `--answer` value that is not `QUESTION_ID=VALUE`.
    BadAnswer(String),
}

/// What an input error is told as.
pub open spec fn input_error_text(e: InputError) -> Seq<char> {
    match e {
        InputError::BothPromptSources => "use either --prompt or --prompt-file, not both"@,
        InputError::NoPrompt => "plan requires --prompt or --prompt-file"@,
        InputError::BothParamsSources => "use either --params or --params-file, not both"@,
        InputError::MixedAnswerSources => "use either --answer or --answers-json/--answers-file, not both"@,
        InputError::NoAnswers => "session answer requires at least one --answer QUESTION_ID=VALUE"@,
        InputError::BadAnswer(pair) => "answer must be QUESTION_ID=VALUE, got "@ + pair@,
    }
}

impl InputError {
    /// The message of the error.
    pub fn message(&self) -> (r: String)
        ensures
            r@ == input_error_text(*self),
    {
        match self {
            InputError::BothPromptSources => owned("use either --prompt or --prompt-file, not both"),
            InputError::NoPrompt => owned("plan requires --prompt or --prompt-file"),
            InputError::BothParamsSources => owned("use either --params or --params-file, not both"),
            InputError::MixedAnswerSources => owned(
                "use either --answer or --answers-json/--answers-file, not both",
            ),
            InputError::NoAnswers => owned(
                "session answer requires at least one --answer QUESTION_ID=VALUE",
            ),
            InputError::BadAnswer(pair) => {
                let mut out = owned("answer must be QUESTION_ID=VALUE, got ");
                push_str(&mut out, pair.as_str());
                out
            },
        }
    }
}

/// Where a text input comes from: the text itself, or a file to read.
#[derive(Debug)]
pub enum Source {
    Text(String),
    File(String),
}

/// The prompt of `plan`, `session start` and `session send`: the text, or the file holding it.
pub fn prompt_source(prompt: Option<String>, prompt_file: Option<String>) -> (r: Result<Source, InputError>)
    ensures
        match (prompt, prompt_file) {
            (Some(_), Some(_)) => r matches Err(InputError::BothPromptSources),
            (Some(t), None) => r matches Ok(Source::Text(x)) && x@ == t@,
            (None, Some(p)) => r matches Ok(Source::File(x)) && x@ == p@,
            (None, None) => r matches Err(InputError::NoPrompt),
        },
{
    match (prompt, prompt_file) {
        (Some(_), Some(_)) => Err(InputError::BothPromptSources),
        (Some(t), None) => Ok(Source::Text(t)),
        (None, Some(p)) => Ok(Source::File(p)),
        (None, None) => Err(InputError::NoPrompt),
    }
}

/// The JSON parameters of `raw` and the raw answers of `session answer`: the text, the file
/// holding it, or `{}` when neither is given.
pub fn params_source(params: Option<String>, params_file: Option<String>) -> (r: Result<Source, InputError>)
    ensures
        match (params, params_file) {
            (Some(_), Some(_)) => r matches Err(InputError::BothParamsSources),
            (Some(t), None) => r matches Ok(Source::Text(x)) && x@ == t@,
            (None, Some(p)) => r matches Ok(Source::File(x)) && x@ == p@,
            (None, None) => r matches Ok(Source::Text(x)) && x@ == "{}"@,
        },
{
    match (params, params_file) {
        (Some(_), Some(_)) => Err(InputError::BothParamsSources),
        (Some(t), None) => Ok(Source::Text(t)),
        (None, Some(p)) => Ok(Source::File(p)),
        (None, None) => Ok(Source::Text(owned("{}"))),
    }
}

/// Where the answer of `session answer` comes from: `Ok(None)` for the `--answer` pairs,
/// `Ok(Some(source))` for raw answers (only when no pair is given).
pub fn session_answer_source(
    pairs: &Vec<String>,
    answers_json: Option<String>,
    answers_file: Option<String>,
) -> (r: Result<Option<Source>, InputError>)
    ensures
        answers_json is None && answers_file is None ==> r matches Ok(None),
        (answers_json is Some || answers_file is Some) && pairs.len() > 0 ==> r matches Err(
            InputError::MixedAnswerSources,
        ),
        (answers_json is Some || answers_file is Some) && pairs.len() == 0 ==> match (
            answers_json,
            answers_file,
        ) {
            (Some(_), Some(_)) => r matches Err(InputError::BothParamsSources),
            (Some(t), None) => r matches Ok(Some(Source::Text(x))) && x@ == t@,
            (None, Some(p)) => r matches Ok(Some(Source::File(x))) && x@ == p@,
            (None, None) => false,
        },
{
    if answers_json.is_none() && answers_file.is_none() {
        return Ok(None);
    }
    if pairs.len() > 0 {
        return Err(InputError::MixedAnswerSources);
    }
    match params_source(answers_json, answers_file) {
        Ok(s) => Ok(Some(s)),
        Err(e) => Err(e),
    }
}

// ---------------------------------------------------------------- the order of string keys

/// The order of `String` (and so of the keys of a `BTreeMap<String, _>`): character by
/// character by code point, a proper prefix first.
pub open spec fn text_less(a: Seq<char>, b: Seq<char>) -> bool
    decreases a.len(),
{
    if b.len() == 0 {
        false
    } else if a.len() == 0 {
        true
    } else if a[0] != b[0] {
        a[0] < b[0]
    } else {
        text_less(a.drop_first(), b.drop_first())
    }
}

/// No string comes before itself.
pub proof fn lemma_text_less_irreflexive(a: Seq<char>)
    ensures
        !text_less(a, a),
    decreases a.len(),
{
    if a.len() > 0 {
        lemma_text_less_irreflexive(a.drop_first());
    }
}

/// Of two different strings, one comes first.
pub proof fn lemma_text_less_total(a: Seq<char>, b: Seq<char>)
    ensures
        a == b || text_less(a, b) || text_less(b, a),
    decreases a.len(),
{
    if a.len() == 0 && b.len() == 0 {
        assert(a =~= b);
    } else if a.len() > 0 && b.len() > 0 && a[0] == b[0] {
        lemma_text_less_total(a.drop_first(), b.drop_first());
        if a.drop_first() == b.drop_first() {
            assert(a =~= seq![a[0]] + a.drop_first());
            assert(b =~= seq![b[0]] + b.drop_first());
        }
    }
}

/// The order is transitive.
pub proof fn lemma_text_less_transitive(a: Seq<char>, b: Seq<char>, c: Seq<char>)
    requires
        text_less(a, b),
        text_less(b, c),
    ensures
        text_less(a, c),
    decreases a.len(),
{
    if a.len() > 0 && b.len() > 0 && c.len() > 0 && a[0] == b[0] && b[0] == c[0] {
        lemma_text_less_transitive(a.drop_first(), b.drop_first(), c.drop_first());
    }
}

/// `a < b` on strings.
pub fn text_less_exec(a: &[char], b: &[char]) -> (r: bool)
    ensures
        r == text_less(a@, b@),
{
    let mut i: usize = 0;
    assert(a@.skip(0) =~= a@);
    assert(b@.skip(0) =~= b@);
    while i < a.len() && i < b.len() && a[i] == b[i]
        invariant
            i <= a.len(),
            i <= b.len(),
            text_less(a@, b@) == text_less(a@.skip(i as int), b@.skip(i as int)),
        decreases a.len() - i,
    {
        assert(a@.skip(i as int).drop_first() =~= a@.skip(i + 1));
        assert(b@.skip(i as int).drop_first() =~= b@.skip(i + 1));
        i = i + 1;
    }
    if i == b.len() {
        false
    } else if i == a.len() {
        true
    } else {
        assert(a@.skip(i as int)[0] == a@[i as int]);
        assert(b@.skip(i as int)[0] == b@[i as int]);
        a[i] < b[i]
    }
}

// ---------------------------------------------------------------- the answers of `session answer`

/// An `--answer QUESTION_ID=VALUE` pair: split at the first `=`, both sides trimmed and
/// non-empty.
pub open spec fn split_answer(pair: Seq<char>) -> Option<(Seq<char>, Seq<char>)> {
    match first_occurrence(pair, seq!['=']) {
        Some(i) => {
            let id = trimmed(pair.take(i));
            let answer = trimmed(pair.skip(i + 1));
            if id.len() == 0 || answer.len() == 0 {
                None
            } else {
                Some((id, answer))
            }
        },
        None => None,
    }
}

/// Every pair splits.
pub open spec fn all_split(pairs: Seq<Seq<char>>) -> bool {
    forall|i: int| 0 <= i < pairs.len() ==> (#[trigger] split_answer(pairs[i])) is Some
}

/// The split pairs, in order.
pub open spec fn split_all(pairs: Seq<Seq<char>>) -> Seq<(Seq<char>, Seq<char>)> {
    pairs.map_values(
        |p: Seq<char>|
            match split_answer(p) {
                Some(x) => x,
                None => (Seq::empty(), Seq::empty()),
            },
    )
}

/// The answers given to one question id, in the order given.
pub open spec fn answers_for(parsed: Seq<(Seq<char>, Seq<char>)>, id: Seq<char>) -> Seq<Seq<char>>
    decreases parsed.len(),
{
    if parsed.len() == 0 {
        Seq::empty()
    } else {
        let rest = answers_for(parsed.drop_last(), id);
        if parsed.last().0 == id {
            rest.push(parsed.last().1)
        } else {
            rest
        }
    }
}

/// The entry of one question: `{"answers": [...]}`.
pub open spec fn answers_entry(answers: Seq<Seq<char>>) -> JsonV {
    JsonV::Object(seq![("answers"@, str_array(answers))])
}

/// The members of the answer object group the pairs by question id: one member per id, the
/// ids in string order, each holding the answers given to it in the order given.
pub open spec fn grouped(members: Seq<(Seq<char>, JsonV)>, parsed: Seq<(Seq<char>, Seq<char>)>) -> bool {
    &&& forall|i: int, j: int|
        0 <= i < j < members.len() ==> text_less(#[trigger] members[i].0, #[trigger] members[j].0)
    &&& forall|i: int|
        0 <= i < members.len() ==> {
            &&& answers_for(parsed, (#[trigger] members[i]).0).len() > 0
            &&& members[i].1 == answers_entry(answers_for(parsed, members[i].0))
        }
    &&& forall|k: int|
        0 <= k < parsed.len() ==> exists|i: int|
            0 <= i < members.len() && (#[trigger] members[i]).0 == (#[trigger] parsed[k]).0
}

proof fn lemma_answers_absent(parsed: Seq<(Seq<char>, Seq<char>)>, id: Seq<char>)
    requires
        forall|k: int| 0 <= k < parsed.len() ==> (#[trigger] parsed[k]).0 != id,
    ensures
        answers_for(parsed, id) == Seq::<Seq<char>>::empty(),
    decreases parsed.len(),
{
    if parsed.len() > 0 {
        let init = parsed.drop_last();
        assert forall|k: int| 0 <= k < init.len() implies (#[trigger] init[k]).0 != id by {
            assert(init[k] == parsed[k]);
        }
        lemma_answers_absent(init, id);
        assert(parsed.last() == parsed[parsed.len() - 1]);
    }
}

fn split_answer_exec(pair: &str) -> (r: Option<(String, String)>)
    ensures
        match split_answer(pair@) {
            Some(x) => r matches Some(y) && y.0@ == x.0 && y.1@ == x.1,
            None => r is None,
        },
{
    let cs = chars_of(pair);
    let eq: [char; 1] = ['='];
    assert(eq@ =~= seq!['=']);
    let i = match find(cs.as_slice(), eq.as_slice()) {
        Some(i) => i,
        None => {
            return None;
        },
    };
    assert(occurs_at(cs@, eq@, i as int));
    let left = slice_chars(cs.as_slice(), 0, i);
    let right = slice_chars(cs.as_slice(), i + 1, cs.len());
    assert(left@ =~= cs@.take(i as int));
    assert(right@ =~= cs@.skip(i + 1));
    let (a, b) = trim_bounds(left.as_slice());
    let (c, d) = trim_bounds(right.as_slice());
    if a == b || c == d {
        return None;
    }
    let id = slice_chars(left.as_slice(), a, b);
    let answer = slice_chars(right.as_slice(), c, d);
    Some((string_of(id.as_slice()), string_of(answer.as_slice())))
}

fn answers_entry_exec(answers: &Vec<String>) -> (r: Json)
    ensures
        r@ == answers_entry(strs(answers@)),
{
    let mut b = ObjectBuilder::new();
    b.add("answers", string_array(answers));
    let r = b.build();
    assert(r@ =~= answers_entry(strs(answers@)));
    r
}

/// The position of `id` among sorted ids: the first id that does not come before it.
fn id_position(ids: &Vec<Vec<char>>, id: &[char]) -> (r: usize)
    ensures
        r <= ids.len(),
        forall|a: int| 0 <= a < r ==> text_less(#[trigger] ids@[a]@, id@),
        r < ids.len() ==> !text_less(ids@[r as int]@, id@),
{
    let mut p: usize = 0;
    while p < ids.len()
        invariant
            p <= ids.len(),
            forall|a: int| 0 <= a < p ==> text_less(#[trigger] ids@[a]@, id@),
        decreases ids.len() - p,
    {
        if !text_less_exec(ids[p].as_slice(), id) {
            return p;
        }
        p = p + 1;
    }
    p
}

/// Groups `--answer QUESTION_ID=VALUE` pairs by question id; the first pair that does not
/// split is refused.
fn group_answers(pairs: &Vec<String>) -> (r: Result<Json, InputError>)
    ensures
        match r {
            Ok(j) => all_split(strs(pairs@)) && exists|m: Seq<(Seq<char>, JsonV)>|
                j@ == answers_payload(m) && grouped(m, split_all(strs(pairs@))),
            Err(e) => e matches InputError::BadAnswer(p) && exists|i: int|
                0 <= i < pairs.len() && split_answer(pairs@[i]@) is None && p@ == pairs@[i]@
                    && forall|j: int| 0 <= j < i ==> split_answer(#[trigger] pairs@[j]@) is Some,
        },
{
    let ghost ps = strs(pairs@);
    let mut ids: Vec<Vec<char>> = Vec::new();
    let mut groups: Vec<Vec<String>> = Vec::new();
    let mut i: usize = 0;
    while i < pairs.len()
        invariant
            i <= pairs.len(),
            ps == strs(pairs@),
            ids.len() == groups.len(),
            forall|j: int| 0 <= j < i ==> split_answer(#[trigger] ps[j]) is Some,
            forall|a: int, b: int|
                0 <= a < b < ids.len() ==> text_less(#[trigger] ids@[a]@, #[trigger] ids@[b]@),
            forall|a: int|
                0 <= a < ids.len() ==> {
                    &&& answers_for(split_all(ps.take(i as int)), (#[trigger] ids@[a])@).len() > 0
                    &&& strs(groups@[a]@) == answers_for(split_all(ps.take(i as int)), ids@[a]@)
                },
            forall|k: int|
                0 <= k < i ==> exists|a: int|
                    0 <= a < ids.len() && (#[trigger] ids@[a])@ == (#[trigger] split_all(
                        ps.take(i as int),
                    )[k]).0,
        decreases pairs.len() - i,
    {
        let ghost before = split_all(ps.take(i as int));
        assert(ps[i as int] == pairs@[i as int]@);
        let (id, answer) = match split_answer_exec(pairs[i].as_str()) {
            Some(x) => x,
            None => {
                proof {
                    assert forall|j: int| 0 <= j < i implies split_answer(
                        #[trigger] pairs@[j]@,
                    ) is Some by {
                        assert(ps[j] == pairs@[j]@);
                    }
                }
                return Err(InputError::BadAnswer(owned(pairs[i].as_str())));
            },
        };
        let ghost entry = (id@, answer@);
        let ghost after = split_all(ps.take(i + 1));
        assert(after =~= before.push(entry)) by {
            assert(ps.take(i + 1) =~= ps.take(i as int).push(ps[i as int]));
        }
        assert(after.drop_last() =~= before);
        let idc = chars_of(id.as_str());
        let p = id_position(&ids, idc.as_slice());
        let found = p < ids.len() && chars_eq(ids[p].as_slice(), idc.as_slice());
        if found {
            let ghost old_ids = ids@;
            let ghost old_groups = groups@;
            let mut g = groups.remove(p);
            let ghost gv = strs(g@);
            g.push(answer);
            assert(strs(g@) =~= gv.push(entry.1));
            groups.insert(p, g);
            assert forall|a: int| 0 <= a < ids.len() implies {
                &&& answers_for(after, (#[trigger] ids@[a])@).len() > 0
                &&& strs(groups@[a]@) == answers_for(after, ids@[a]@)
            } by {
                if a == p {
                    assert(groups@[a] == g);
                } else {
                    if a < p {
                        assert(text_less(ids@[a]@, ids@[p as int]@));
                        lemma_text_less_irreflexive(ids@[a]@);
                        assert(groups@[a] == old_groups[a]);
                    } else {
                        assert(text_less(ids@[p as int]@, ids@[a]@));
                        lemma_text_less_irreflexive(ids@[a]@);
                        assert(groups@[a] == old_groups[a]);
                    }
                }
            }
            assert forall|k: int| 0 <= k < i + 1 implies exists|a: int|
                0 <= a < ids.len() && (#[trigger] ids@[a])@ == (#[trigger] after[k]).0 by {
                if k < i {
                    assert(after[k] == before[k]);
                    let a = choose|a: int| 0 <= a < ids.len() && (#[trigger] ids@[a])@ == before[k].0;
                    assert(ids@[a]@ == after[k].0);
                } else {
                    assert(ids@[p as int]@ == after[k].0);
                }
            }
        } else {
            let ghost old_ids = ids@;
            let ghost old_groups = groups@;
            proof {
                assert forall|a: int| 0 <= a < old_ids.len() implies (#[trigger] old_ids[a])@ != id@ by {
                    if a < p {
                        lemma_text_less_irreflexive(id@);
                    } else {
                        lemma_text_less_total(old_ids[p as int]@, id@);
                        if a > p {
                            assert(text_less(old_ids[p as int]@, old_ids[a]@));
                            if old_ids[a]@ == id@ {
                                lemma_text_less_transitive(id@, old_ids[p as int]@, id@);
                                lemma_text_less_irreflexive(id@);
                            }
                        }
                    }
                }
                assert forall|k: int| 0 <= k < before.len() implies (#[trigger] before[k]).0 != id@ by {
                    let a = choose|a: int| 0 <= a < old_ids.len() && (#[trigger] old_ids[a])@ == before[k].0;
                    assert(old_ids[a]@ != id@);
                }
                lemma_answers_absent(before, id@);
            }
            let mut g: Vec<String> = Vec::new();
            g.push(answer);
            assert(strs(g@) =~= seq![entry.1]);
            assert(answers_for(after, id@) =~= seq![entry.1]);
            ids.insert(p, idc);
            groups.insert(p, g);
            assert forall|a: int, b: int|
                0 <= a < b < ids.len() implies text_less(#[trigger] ids@[a]@, #[trigger] ids@[b]@) by {
                if b < p {
                    assert(ids@[a] == old_ids[a] && ids@[b] == old_ids[b]);
                } else if b == p {
                    assert(ids@[a] == old_ids[a]);
                } else if a == p {
                    assert(ids@[b] == old_ids[b - 1]);
                    lemma_text_less_total(old_ids[p as int]@, id@);
                    if b - 1 > p {
                        lemma_text_less_transitive(id@, old_ids[p as int]@, old_ids[b - 1]@);
                    }
                } else if a < p {
                    assert(ids@[a] == old_ids[a] && ids@[b] == old_ids[b - 1]);
                    if b - 1 > p {
                        lemma_text_less_transitive(old_ids[a]@, old_ids[p as int]@, old_ids[b - 1]@);
                    } else {
                        assert(b - 1 == p);
                    }
                } else {
                    assert(ids@[a] == old_ids[a - 1] && ids@[b] == old_ids[b - 1]);
                }
            }
            assert forall|a: int| 0 <= a < ids.len() implies {
                &&& answers_for(after, (#[trigger] ids@[a])@).len() > 0
                &&& strs(groups@[a]@) == answers_for(after, ids@[a]@)
            } by {
                if a < p {
                    assert(ids@[a] == old_ids[a] && groups@[a] == old_groups[a]);
                    assert(old_ids[a]@ != id@);
                } else if a > p {
                    assert(ids@[a] == old_ids[a - 1] && groups@[a] == old_groups[a - 1]);
                    assert(old_ids[a - 1]@ != id@);
                }
            }
            assert forall|k: int| 0 <= k < i + 1 implies exists|a: int|
                0 <= a < ids.len() && (#[trigger] ids@[a])@ == (#[trigger] after[k]).0 by {
                if k < i {
                    assert(after[k] == before[k]);
                    let a = choose|a: int| 0 <= a < old_ids.len() && (#[trigger] old_ids[a])@ == before[k].0;
                    if a < p {
                        assert(ids@[a] == old_ids[a]);
                    } else {
                        assert(ids@[a + 1] == old_ids[a]);
                    }
                } else {
                    assert(ids@[p as int]@ == after[k].0);
                }
            }
        }
        i = i + 1;
    }
    assert(ps.take(i as int) =~= ps);
    let ghost parsed = split_all(ps);
    let mut b = ObjectBuilder::new();
    let mut a: usize = 0;
    while a < ids.len()
        invariant
            a <= ids.len(),
            ids.len() == groups.len(),
            b.model().len() == a,
            forall|x: int|
                0 <= x < a ==> (#[trigger] b.model()[x]) == (ids@[x]@, answers_entry(strs(groups@[x]@))),
        decreases ids.len() - a,
    {
        let key = string_of(ids[a].as_slice());
        b.add(key.as_str(), answers_entry_exec(&groups[a]));
        a = a + 1;
    }
    let ghost m = b.model();
    let inner = b.build();
    let mut outer = ObjectBuilder::new();
    outer.add("answers", inner);
    let r = outer.build();
    assert(r@ =~= answers_payload(m));
    assert(grouped(m, parsed)) by {
        assert forall|x: int, y: int| 0 <= x < y < m.len() implies text_less(
            #[trigger] m[x].0,
            #[trigger] m[y].0,
        ) by {
            assert(m[x].0 == ids@[x]@ && m[y].0 == ids@[y]@);
        }
        assert forall|x: int| 0 <= x < m.len() implies {
            &&& answers_for(parsed, (#[trigger] m[x]).0).len() > 0
            &&& m[x].1 == answers_entry(answers_for(parsed, m[x].0))
        } by {
            assert(m[x].0 == ids@[x]@);
        }
        assert forall|k: int| 0 <= k < parsed.len() implies exists|x: int|
            0 <= x < m.len() && (#[trigger] m[x]).0 == (#[trigger] parsed[k]).0 by {
            let x = choose|x: int| 0 <= x < ids.len() && (#[trigger] ids@[x])@ == parsed[k].0;
            assert(m[x].0 == ids@[x]@);
        }
    }
    Ok(r)
}

/// The answer sent by `session answer`: raw answers are sent as they are when they hold an
/// `answers` member and wrapped in one otherwise; `--answer` pairs are grouped by question id.
pub fn build_session_answer(pairs: &Vec<String>, raw: Option<Json>) -> (r: Result<Json, InputError>)
    ensures
        match raw {
            Some(v) => if pairs.len() > 0 {
                r matches Err(InputError::MixedAnswerSources)
            } else if jget(v@, "answers"@) is Some {
                r matches Ok(x) && x@ == v@
            } else {
                r matches Ok(x) && x@ == answers_payload_of(v@)
            },
            None => if pairs.len() == 0 {
                r matches Err(InputError::NoAnswers)
            } else {
                match r {
                    Ok(j) => all_split(strs(pairs@)) && exists|m: Seq<(Seq<char>, JsonV)>|
                        j@ == answers_payload(m) && grouped(m, split_all(strs(pairs@))),
                    Err(e) => e matches InputError::BadAnswer(p) && exists|i: int|
                        0 <= i < pairs.len() && split_answer(pairs@[i]@) is None && p@ == pairs@[i]@
                            && forall|j: int| 0 <= j < i ==> split_answer(#[trigger] pairs@[j]@) is Some,
                }
            },
        },
{
    match raw {
        Some(v) => {
            if pairs.len() > 0 {
                return Err(InputError::MixedAnswerSources);
            }
            if v.get("answers").is_some() {
                Ok(v)
            } else {
                let mut b = ObjectBuilder::new();
                b.add("answers", v);
                let r = b.build();
                assert(r@ =~= answers_payload_of(v@));
                Ok(r)
            }
        },
        None => {
            if pairs.len() == 0 {
                return Err(InputError::NoAnswers);
            }
            group_answers(pairs)
        },
    }
}

/// `{"answers": value}`.
pub open spec fn answers_payload_of(value: JsonV) -> JsonV {
    JsonV::Object(seq![("answers"@, value)])
}

} // verus!
