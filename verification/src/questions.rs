use vstd::prelude::*;
use vstd::string::*;

use crate::json::{
    Json, JsonV, ObjectBuilder, string_array, strs, jarray, jget, jpath, jstr, lemma_view_array, or_null, set_key,
    set_member,
};
use crate::settings::QuestionMode;
use crate::text::{
    chars_of, copy_string, decimal_digits, decimal_text, find, first_occurrence, lower_ascii,
    lowered, owned, parse_u64, parsed_u64, push_chars, push_str, slice_chars, string_of,
    trim_bounds, trimmed,
};

verus! {

/// Why structured questions could not be answered.
#[derive(Debug)]
pub enum QuestionError {
    /// A question has no string `id`.
    MissingId,
    /// The question with this id offers no option to choose.
    NoSelectableOption(String),
    /// An interactive answer was empty.
    EmptyAnswer,
    /// An external answer holds neither `result` nor `answers`.
    NoResultOrAnswers,
    /// `answer` was given no value.
    NoAnswerValue,
}

/// What a question error is told as.
pub open spec fn question_error_text(e: QuestionError) -> Seq<char> {
    match e {
        QuestionError::MissingId => "request_user_input question missing id"@,
        QuestionError::NoSelectableOption(id) => "question "@ + id@ + " has no selectable option"@,
        QuestionError::EmptyAnswer => "empty interactive answer"@,
        QuestionError::NoResultOrAnswers => "answer JSON must contain result or answers"@,
        QuestionError::NoAnswerValue => "answer requires at least one --answer value"@,
    }
}

impl QuestionError {
    /// The message of the error.
    pub fn message(&self) -> (r: String)
        ensures
            r@ == question_error_text(*self),
    {
        match self {
            QuestionError::MissingId => owned("request_user_input question missing id"),
            QuestionError::NoSelectableOption(id) => {
                let mut out = owned("question ");
                push_str(&mut out, id.as_str());
                push_str(&mut out, " has no selectable option");
                out
            },
            QuestionError::EmptyAnswer => owned("empty interactive answer"),
            QuestionError::NoResultOrAnswers => owned("answer JSON must contain result or answers"),
            QuestionError::NoAnswerValue => owned("answer requires at least one --answer value"),
        }
    }
}

/// The labels of a question's options, skipping options without a string label.
pub open spec fn labels_of(items: Seq<JsonV>) -> Seq<Seq<char>>
    decreases items.len(),
{
    if items.len() == 0 {
        Seq::empty()
    } else {
        (match jstr(jget(items[0], "label"@)) {
            Some(l) => seq![l],
            None => Seq::empty(),
        }) + labels_of(items.drop_first())
    }
}

pub open spec fn option_labels(question: JsonV) -> Seq<Seq<char>> {
    match jarray(jget(question, "options"@)) {
        Some(items) => labels_of(items),
        None => Seq::empty(),
    }
}

/// The label is marked as the recommended choice (`(recommended)`, any ASCII case).
pub open spec fn is_recommended(label: Seq<char>) -> bool {
    first_occurrence(lowered(label), "(recommended)"@) is Some
}

pub open spec fn first_recommended(labels: Seq<Seq<char>>) -> Option<Seq<char>>
    decreases labels.len(),
{
    if labels.len() == 0 {
        None
    } else if is_recommended(labels[0]) {
        Some(labels[0])
    } else {
        first_recommended(labels.drop_first())
    }
}

pub open spec fn first_label(labels: Seq<Seq<char>>) -> Option<Seq<char>> {
    if labels.len() == 0 {
        None
    } else {
        Some(labels[0])
    }
}

/// The labels of the options of a question.
pub fn options(question: &Json) -> (r: Vec<String>)
    ensures
        r@.map_values(|s: String| s@) == option_labels(question@),
{
    let mut out: Vec<String> = Vec::new();
    match question.get("options") {
        Some(o) => match o.as_array() {
            Some(items) => {
                let ghost iv = items@.map_values(|x: Json| x@);
                let mut i: usize = 0;
                assert(iv.skip(0) =~= iv);
                assert(out@.map_values(|s: String| s@) =~= Seq::<Seq<char>>::empty());
                while i < items.len()
                    invariant
                        i <= items.len(),
                        iv == items@.map_values(|x: Json| x@),
                        labels_of(iv) == out@.map_values(|s: String| s@) + labels_of(
                            iv.skip(i as int),
                        ),
                    decreases items.len() - i,
                {
                    assert(iv.skip(i as int).drop_first() =~= iv.skip(i + 1));
                    assert(iv.skip(i as int)[0] == items@[i as int]@);
                    let ghost before = out@.map_values(|s: String| s@);
                    match items[i].get("label") {
                        Some(l) => match l.as_str() {
                            Some(s) => {
                                out.push(owned(s));
                                assert(out@.map_values(|s: String| s@) =~= before + seq![s@]);
                            },
                            None => {
                                assert(out@.map_values(|s: String| s@) =~= before
                                    + Seq::<Seq<char>>::empty());
                            },
                        },
                        None => {
                            assert(out@.map_values(|s: String| s@) =~= before + Seq::<
                                Seq<char>,
                            >::empty());
                        },
                    }
                    i = i + 1;
                }
                assert(labels_of(iv.skip(i as int)) =~= Seq::<Seq<char>>::empty());
                assert(out@.map_values(|s: String| s@) + Seq::<Seq<char>>::empty()
                    =~= out@.map_values(|s: String| s@));
            },
            None => {
                assert(out@.map_values(|s: String| s@) =~= Seq::<Seq<char>>::empty());
            },
        },
        None => {
            assert(out@.map_values(|s: String| s@) =~= Seq::<Seq<char>>::empty());
        },
    }
    out
}

fn is_recommended_exec(label: &str) -> (r: bool)
    ensures
        r == is_recommended(label@),
{
    let v = chars_of(label);
    let low = lower_ascii(v.as_slice());
    let tag = chars_of("(recommended)");
    find(low.as_slice(), tag.as_slice()).is_some()
}

/// The first option label marked `(recommended)`.
pub fn select_recommended(question: &Json) -> (r: Option<String>)
    ensures
        match r {
            Some(s) => first_recommended(option_labels(question@)) == Some(s@),
            None => first_recommended(option_labels(question@)) is None,
        },
{
    let labels = options(question);
    let ghost lv = labels@.map_values(|s: String| s@);
    let mut i: usize = 0;
    assert(lv.skip(0) =~= lv);
    while i < labels.len()
        invariant
            i <= labels.len(),
            lv == labels@.map_values(|s: String| s@),
            lv == option_labels(question@),
            first_recommended(lv) == first_recommended(lv.skip(i as int)),
        decreases labels.len() - i,
    {
        assert(lv.skip(i as int).drop_first() =~= lv.skip(i + 1));
        assert(lv.skip(i as int)[0] == labels@[i as int]@);
        if is_recommended_exec(labels[i].as_str()) {
            return Some(copy_string(&labels[i]));
        }
        i = i + 1;
    }
    None
}

/// The first option label.
pub fn select_first(question: &Json) -> (r: Option<String>)
    ensures
        match r {
            Some(s) => first_label(option_labels(question@)) == Some(s@),
            None => first_label(option_labels(question@)) is None,
        },
{
    let labels = options(question);
    if labels.len() == 0 {
        None
    } else {
        Some(copy_string(&labels[0]))
    }
}

/// The automatic choice: the recommended label, or the first when none is recommended
/// (`auto-recommended`); the first label (`auto-first`).
pub open spec fn auto_choice(question: JsonV, recommended: bool) -> Option<Seq<char>> {
    if recommended {
        match first_recommended(option_labels(question)) {
            Some(l) => Some(l),
            None => first_label(option_labels(question)),
        }
    } else {
        first_label(option_labels(question))
    }
}

/// The answer entry for one question: `{"answers": [selected]}`.
pub open spec fn answer_entry(selected: Seq<char>) -> JsonV {
    JsonV::Object(seq![("answers"@, JsonV::Array(seq![JsonV::Str(selected)]))])
}

/// Answers the questions left to right; a later answer to the same id replaces the earlier.
/// A refusal carries the id of the question with nothing to choose, or nothing for a question
/// without an id.
pub open spec fn auto_answers(questions: Seq<JsonV>, recommended: bool, acc: Seq<(Seq<char>, JsonV)>) -> Result<
    Seq<(Seq<char>, JsonV)>,
    Option<Seq<char>>,
>
    decreases questions.len(),
{
    if questions.len() == 0 {
        Ok(acc)
    } else {
        match jstr(jget(questions[0], "id"@)) {
            None => Err(None),
            Some(id) => match auto_choice(questions[0], recommended) {
                None => Err(Some(id)),
                Some(sel) => auto_answers(
                    questions.drop_first(),
                    recommended,
                    set_member(acc, id, answer_entry(sel)),
                ),
            },
        }
    }
}

/// The questions of a `request_user_input` message (`params.questions`, or none).
pub open spec fn questions_of(message: JsonV) -> Seq<JsonV> {
    match jarray(jpath(message, seq!["params"@, "questions"@])) {
        Some(q) => q,
        None => Seq::empty(),
    }
}

/// The answer payload `{"answers": {...}}` around the answered members.
pub open spec fn answers_payload(members: Seq<(Seq<char>, JsonV)>) -> JsonV {
    JsonV::Object(seq![("answers"@, JsonV::Object(members))])
}

fn answer_entry_exec(selected: String) -> (r: Json)
    ensures
        r@ == answer_entry(selected@),
{
    let mut items: Vec<Json> = Vec::new();
    let ghost s = selected@;
    items.push(Json::Str(selected));
    proof {
        lemma_view_array(items);
        assert(items@.map_values(|x: Json| x@) =~= seq![JsonV::Str(s)]);
    }
    let mut b = ObjectBuilder::new();
    b.add("answers", Json::Array(items));
    let r = b.build();
    assert(r@ =~= answer_entry(s));
    r
}

/// The automatic choice for one question.
pub fn auto_select(question: &Json, recommended: bool) -> (r: Option<String>)
    ensures
        match r {
            Some(s) => auto_choice(question@, recommended) == Some(s@),
            None => auto_choice(question@, recommended) is None,
        },
{
    if recommended {
        match select_recommended(question) {
            Some(s) => Some(s),
            None => select_first(question),
        }
    } else {
        select_first(question)
    }
}

fn questions_exec(message: &Json) -> (r: Option<&Vec<Json>>)
    ensures
        match r {
            Some(v) => questions_of(message@) == v@.map_values(|x: Json| x@),
            None => questions_of(message@) == Seq::<JsonV>::empty(),
        },
{
    let path = ["params", "questions"];
    assert(path@.map_values(|k: &str| k@) =~= seq!["params"@, "questions"@]);
    match message.path(&path) {
        Some(q) => q.as_array(),
        None => None,
    }
}

/// What became of a `request_user_input` request.
#[derive(Debug)]
pub enum QuestionAnswer {
    /// The answer to send back.
    Answered(Json),
    /// The answer must come from outside; the payload says what is asked.
    NeedsInput(Json),
}

/// The answer format shown to whoever must answer.
pub open spec fn answer_format() -> JsonV {
    JsonV::Object(
        seq![
            ("answers"@, JsonV::Object(
                seq![
                    ("<question_id>"@, JsonV::Object(
                        seq![("answers"@, JsonV::Array(seq![JsonV::Str("<selected option label>"@)]))],
                    )),
                ],
            )),
        ],
    )
}

/// What a request that must be answered from outside carries: its id, its params and the
/// answer format; the external mode adds `"type": "needs_input"` in front.
pub open spec fn needs_input_view(message: JsonV, typed: bool) -> JsonV {
    let rest = seq![
        ("request_id"@, or_null(jget(message, "id"@))),
        ("params"@, match jget(message, "params"@) {
            Some(p) => p,
            None => JsonV::Object(Seq::empty()),
        }),
        ("answer_format"@, answer_format()),
    ];
    if typed {
        JsonV::Object(seq![("type"@, JsonV::Str("needs_input"@))] + rest)
    } else {
        JsonV::Object(rest)
    }
}

fn answer_format_exec() -> (r: Json)
    ensures
        r@ == answer_format(),
{
    let mut items: Vec<Json> = Vec::new();
    items.push(Json::text("<selected option label>"));
    proof {
        lemma_view_array(items);
        assert(items@.map_values(|x: Json| x@) =~= seq![JsonV::Str("<selected option label>"@)]);
    }
    let mut inner = ObjectBuilder::new();
    inner.add("answers", Json::Array(items));
    let mut q = ObjectBuilder::new();
    q.add("<question_id>", inner.build());
    let mut outer = ObjectBuilder::new();
    outer.add("answers", q.build());
    let r = outer.build();
    assert(r@ =~= answer_format());
    r
}

/// The payload of a request that must be answered from outside.
pub fn needs_input_payload(message: &Json, typed: bool) -> (r: Json)
    ensures
        r@ == needs_input_view(message@, typed),
{
    let mut b = ObjectBuilder::new();
    if typed {
        b.add("type", Json::text("needs_input"));
    }
    let ghost head = b.model();
    b.add("request_id", Json::cloned_or_null(message.get("id")));
    let params = match message.get("params") {
        Some(p) => p.deep_clone(),
        None => {
            let e = ObjectBuilder::new().build();
            assert(e@ =~= JsonV::Object(Seq::empty()));
            e
        },
    };
    b.add("params", params);
    b.add("answer_format", answer_format_exec());
    let ghost rest = seq![
        ("request_id"@, or_null(jget(message@, "id"@))),
        ("params"@, match jget(message@, "params"@) {
            Some(p) => p,
            None => JsonV::Object(Seq::empty()),
        }),
        ("answer_format"@, answer_format()),
    ];
    assert(b.model() =~= head + rest);
    if typed {
        assert(head =~= seq![("type"@, JsonV::Str("needs_input"@))]);
    } else {
        assert(head + rest =~= rest);
    }
    b.build()
}

/// How the automatic and failing modes answer a request; `None` for the modes that need a
/// person or another program (interactive, external).
pub open spec fn answer_outcome(mode: QuestionMode, message: JsonV) -> Option<Result<JsonV, Option<Seq<char>>>> {
    match mode {
        QuestionMode::Fail => Some(Ok(needs_input_view(message, false))),
        QuestionMode::AutoRecommended => Some(
            match auto_answers(questions_of(message), true, Seq::empty()) {
                Ok(m) => Ok(answers_payload(m)),
                Err(e) => Err(e),
            },
        ),
        QuestionMode::AutoFirst => Some(
            match auto_answers(questions_of(message), false, Seq::empty()) {
                Ok(m) => Ok(answers_payload(m)),
                Err(e) => Err(e),
            },
        ),
        _ => None,
    }
}

#[verifier::loop_isolation(false)]
/// Answers the questions of a `request_user_input` message without asking anyone:
/// `fail` hands the request out; `auto-recommended` and `auto-first` choose per question.
pub fn answer_questions(mode: QuestionMode, message: &Json) -> (r: Result<QuestionAnswer, QuestionError>)
    requires
        mode != QuestionMode::Interactive && mode != QuestionMode::External,
    ensures
        match answer_outcome(mode, message@) {
            Some(Ok(v)) => match r {
                Ok(QuestionAnswer::NeedsInput(p)) => mode == QuestionMode::Fail && p@ == v,
                Ok(QuestionAnswer::Answered(a)) => mode != QuestionMode::Fail && a@ == v,
                Err(_) => false,
            },
            Some(Err(None)) => r matches Err(QuestionError::MissingId),
            Some(Err(Some(id))) => r matches Err(QuestionError::NoSelectableOption(x)) && x@ == id,
            None => false,
        },
{
    if mode == QuestionMode::Fail {
        return Ok(QuestionAnswer::NeedsInput(needs_input_payload(message, false)));
    }
    let recommended = mode == QuestionMode::AutoRecommended;
    let empty: Vec<Json> = Vec::new();
    let questions: &Vec<Json> = match questions_exec(message) {
        Some(q) => q,
        None => {
            assert(empty@.map_values(|x: Json| x@) =~= Seq::<JsonV>::empty());
            &empty
        },
    };
    let ghost qv = questions@.map_values(|x: Json| x@);
    let mut answers = ObjectBuilder::new().build();
    let mut i: usize = 0;
    assert(qv.skip(0) =~= qv);
    while i < questions.len()
        invariant
            i <= questions.len(),
            qv == questions@.map_values(|x: Json| x@),
            answers@ is Object,
            auto_answers(qv, recommended, Seq::empty()) == auto_answers(
                qv.skip(i as int),
                recommended,
                answers@->Object_0,
            ),
        decreases questions.len() - i,
    {
        assert(qv.skip(i as int).drop_first() =~= qv.skip(i + 1));
        assert(qv.skip(i as int)[0] == questions@[i as int]@);
        let q = &questions[i];
        let id = match q.get("id") {
            Some(x) => match x.as_str() {
                Some(s) => s,
                None => {
                    return Err(QuestionError::MissingId);
                },
            },
            None => {
                return Err(QuestionError::MissingId);
            },
        };
        let selected = match auto_select(q, recommended) {
            Some(s) => s,
            None => {
                return Err(QuestionError::NoSelectableOption(owned(id)));
            },
        };
        let ghost before = answers@->Object_0;
        set_key(&mut answers, id, answer_entry_exec(selected));
        i = i + 1;
    }
    assert(qv.skip(i as int) =~= Seq::<JsonV>::empty());
    let ghost members = answers@->Object_0;
    let mut b = ObjectBuilder::new();
    b.add("answers", answers);
    let r = b.build();
    assert(r@ =~= answers_payload(members));
    Ok(QuestionAnswer::Answered(r))
}

/// What an external answer means: its `result`, or `{"answers": answers}`.
pub open spec fn external_result(answer: JsonV) -> Option<JsonV> {
    match jget(answer, "result"@) {
        Some(r) => Some(r),
        None => match jget(answer, "answers"@) {
            Some(a) => Some(JsonV::Object(seq![("answers"@, a)])),
            None => None,
        },
    }
}

/// Reads an answer given from outside (external mode).
pub fn external_answer(answer: &Json) -> (r: Result<Json, QuestionError>)
    ensures
        match external_result(answer@) {
            Some(v) => r matches Ok(x) && x@ == v,
            None => r matches Err(QuestionError::NoResultOrAnswers),
        },
{
    match answer.get("result") {
        Some(x) => Ok(x.deep_clone()),
        None => match answer.get("answers") {
            Some(a) => {
                let mut b = ObjectBuilder::new();
                b.add("answers", a.deep_clone());
                let r = b.build();
                assert(r@ =~= JsonV::Object(seq![("answers"@, a@)]));
                Ok(r)
            },
            None => Err(QuestionError::NoResultOrAnswers),
        },
    }
}

/// What a typed interactive answer selects: an option by its 1-based number (0 also picks the
/// first), otherwise the typed text itself; an empty answer is refused.
pub open spec fn interactive_choice(labels: Seq<Seq<char>>, input: Seq<char>) -> Option<Seq<char>> {
    let t = trimmed(input);
    match parsed_u64(t) {
        Some(n) if n <= usize::MAX && (if n == 0 { 0 } else { n - 1 }) < labels.len() => Some(
            labels[if n == 0 { 0 } else { n - 1 }],
        ),
        _ => if t.len() == 0 {
            None
        } else {
            Some(t)
        },
    }
}

/// Reads the line typed for an interactive question.
pub fn interactive_selection(labels: &Vec<String>, input: &str) -> (r: Result<String, QuestionError>)
    ensures
        match interactive_choice(labels@.map_values(|s: String| s@), input@) {
            Some(s) => r matches Ok(x) && x@ == s,
            None => r matches Err(QuestionError::EmptyAnswer),
        },
{
    let v = chars_of(input);
    let (a, b) = trim_bounds(v.as_slice());
    let t = slice_chars(v.as_slice(), a, b);
    let ghost lv = labels@.map_values(|s: String| s@);
    match parse_u64(t.as_slice()) {
        Some(n) => {
            if n <= usize::MAX as u64 {
                let idx: usize = if n == 0 { 0 } else { (n - 1) as usize };
                if idx < labels.len() {
                    assert(lv[idx as int] == labels@[idx as int]@);
                    return Ok(copy_string(&labels[idx]));
                }
            }
        },
        None => {},
    }
    if t.len() == 0 {
        return Err(QuestionError::EmptyAnswer);
    }
    Ok(string_of(t.as_slice()))
}

/// The id of a question; a question without one is refused.
pub fn question_id(question: &Json) -> (r: Result<String, QuestionError>)
    ensures
        match jstr(jget(question@, "id"@)) {
            Some(id) => r matches Ok(x) && x@ == id,
            None => r matches Err(QuestionError::MissingId),
        },
{
    match question.get("id") {
        Some(v) => match v.as_str() {
            Some(s) => Ok(owned(s)),
            None => Err(QuestionError::MissingId),
        },
        None => Err(QuestionError::MissingId),
    }
}

/// The first line shown for an interactive question: `header: question`.
pub open spec fn interactive_header(question: JsonV) -> Seq<char> {
    let header = match jstr(jget(question, "header"@)) {
        Some(h) => h,
        None => Seq::empty(),
    };
    let text = match jstr(jget(question, "question"@)) {
        Some(t) => t,
        None => "Choose an option"@,
    };
    header + ": "@ + text
}

/// The description shown beside the `i`-th label: that of the `i`-th raw option, empty when it
/// has none.
pub open spec fn option_description(question: JsonV, i: int) -> Seq<char> {
    match jarray(jget(question, "options"@)) {
        Some(items) => if 0 <= i < items.len() {
            match jstr(jget(items[i], "description"@)) {
                Some(d) => d,
                None => Seq::empty(),
            }
        } else {
            Seq::empty()
        },
        None => Seq::empty(),
    }
}

/// The line of the `i`-th option: `  n. label - description`, numbered from 1.
pub open spec fn option_line(i: int, label: Seq<char>, description: Seq<char>) -> Seq<char> {
    "  "@ + decimal_digits((i + 1) as nat) + ". "@ + label + " - "@ + description
}

fn str_or(value: Option<&Json>, fallback: &str) -> (r: String)
    ensures
        r@ == match value {
            Some(v) => match jstr(Some(v@)) {
                Some(t) => t,
                None => fallback@,
            },
            None => fallback@,
        },
{
    match value {
        Some(h) => match h.as_str() {
            Some(s) => owned(s),
            None => owned(fallback),
        },
        None => owned(fallback),
    }
}

/// The lines shown for an interactive question: the header line, then one line per option.
pub fn interactive_lines(question: &Json) -> (r: Vec<String>)
    ensures
        r@.len() == option_labels(question@).len() + 1,
        r@[0]@ == interactive_header(question@),
        forall|i: int|
            0 <= i < option_labels(question@).len() ==> (#[trigger] r@[i + 1])@ == option_line(
                i,
                option_labels(question@)[i],
                option_description(question@, i),
            ),
{
    proof { reveal_strlit(""); }
    let header = str_or(question.get("header"), "");
    let text = str_or(question.get("question"), "Choose an option");
    let mut first = header;
    push_str(&mut first, ": ");
    push_str(&mut first, text.as_str());
    let mut lines: Vec<String> = Vec::new();
    lines.push(first);
    let labels = options(question);
    let ghost lv = labels@.map_values(|s: String| s@);
    let raw_items: Option<&Vec<Json>> = match question.get("options") {
        Some(o) => o.as_array(),
        None => None,
    };
    let mut i: usize = 0;
    while i < labels.len()
        invariant
            i <= labels.len(),
            lv == labels@.map_values(|s: String| s@),
            lv == option_labels(question@),
            lines@.len() == i + 1,
            lines@[0]@ == interactive_header(question@),
            match raw_items {
                Some(items) => jarray(jget(question@, "options"@)) == Some(
                    items@.map_values(|x: Json| x@),
                ),
                None => jarray(jget(question@, "options"@)) is None,
            },
            forall|k: int|
                0 <= k < i ==> (#[trigger] lines@[k + 1])@ == option_line(
                    k,
                    lv[k],
                    option_description(question@, k),
                ),
        decreases labels.len() - i,
    {
        proof { reveal_strlit(""); }
        let description = match raw_items {
            Some(items) => if i < items.len() {
                assert(items@.map_values(|x: Json| x@)[i as int] == items@[i as int]@);
                str_or(items[i].get("description"), "")
            } else {
                owned("")
            },
            None => owned(""),
        };
        assert(description@ == option_description(question@, i as int));
        let mut line = owned("  ");
        let number = decimal_text(i as u64 + 1);
        push_chars(&mut line, number.as_slice());
        push_str(&mut line, ". ");
        push_str(&mut line, labels[i].as_str());
        push_str(&mut line, " - ");
        push_str(&mut line, description.as_str());
        assert(line@ =~= option_line(i as int, lv[i as int], option_description(question@, i as int)));
        lines.push(line);
        i = i + 1;
    }
    lines
}

/// The answer members of the selections made one question at a time: a later selection for the
/// same question id replaces the earlier.
pub open spec fn selection_members(selections: Seq<(Seq<char>, Seq<char>)>) -> Seq<(Seq<char>, JsonV)>
    decreases selections.len(),
{
    if selections.len() == 0 {
        Seq::empty()
    } else {
        set_member(
            selection_members(selections.drop_last()),
            selections.last().0,
            answer_entry(selections.last().1),
        )
    }
}

/// The answer payload of the selections made interactively, `(question id, label)` in order.
pub fn selections_payload(selections: &Vec<(String, String)>) -> (r: Json)
    ensures
        r@ == answers_payload(selection_members(selections@.map_values(|p: (String, String)| (p.0@, p.1@)))),
{
    let ghost sv = selections@.map_values(|p: (String, String)| (p.0@, p.1@));
    let mut answers = ObjectBuilder::new().build();
    let mut i: usize = 0;
    assert(sv.take(0) =~= Seq::<(Seq<char>, Seq<char>)>::empty());
    while i < selections.len()
        invariant
            i <= selections.len(),
            sv == selections@.map_values(|p: (String, String)| (p.0@, p.1@)),
            answers@ == JsonV::Object(selection_members(sv.take(i as int))),
        decreases selections.len() - i,
    {
        assert(sv.take(i + 1).drop_last() =~= sv.take(i as int));
        assert(sv[i as int] == (selections@[i as int].0@, selections@[i as int].1@));
        let entry = answer_entry_exec(copy_string(&selections[i].1));
        set_key(&mut answers, selections[i].0.as_str(), entry);
        i = i + 1;
    }
    assert(sv.take(i as int) =~= sv);
    let ghost members = answers@->Object_0;
    let mut b = ObjectBuilder::new();
    b.add("answers", answers);
    let r = b.build();
    assert(r@ =~= answers_payload(members));
    r
}

/// Builds the payload of `answer`: `{"answers": {question: {"answers": [...]}}}`.
pub open spec fn answer_payload(question: Seq<char>, answers: Seq<Seq<char>>) -> JsonV {
    JsonV::Object(
        seq![
            ("answers"@, JsonV::Object(
                seq![
                    (question, JsonV::Object(
                        seq![("answers"@, JsonV::Array(answers.map_values(|a: Seq<char>| JsonV::Str(a))))],
                    )),
                ],
            )),
        ],
    )
}

/// The payload of `answer`, refused when no answer value was given.
pub fn build_answer(question: &str, answers: &Vec<String>) -> (r: Result<Json, QuestionError>)
    ensures
        answers.len() == 0 ==> r matches Err(QuestionError::NoAnswerValue),
        answers.len() > 0 ==> (r matches Ok(x) && x@ == answer_payload(
            question@,
            answers@.map_values(|s: String| s@),
        )),
{
    if answers.len() == 0 {
        return Err(QuestionError::NoAnswerValue);
    }
    let arr = string_array(answers);
    let mut inner = ObjectBuilder::new();
    inner.add("answers", arr);
    let mut mid = ObjectBuilder::new();
    mid.add(question, inner.build());
    let mut outer = ObjectBuilder::new();
    outer.add("answers", mid.build());
    let r = outer.build();
    assert(r@ =~= answer_payload(question@, answers@.map_values(|s: String| s@)));
    Ok(r)
}

} // verus!
