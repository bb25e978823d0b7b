use vstd::prelude::*;
use vstd::string::*;

use crate::json::{
    Json, JsonV, jget, jpath, jsons, jstr, or_null, strs,
};
use crate::text::{owned, str_eq};
use crate::util::{extract_proposed_plan, proposed_plan};

verus! {

/// Where a turn stands.
#[derive(Debug, Clone, Copy, PartialEq, Eq, Structural)]
pub enum RunStatus {
    Running,
    Completed,
    Failed,
    NeedsInput,
}

pub open spec fn status_text(s: RunStatus) -> Seq<char> {
    match s {
        RunStatus::Running => "running"@,
        RunStatus::Completed => "completed"@,
        RunStatus::Failed => "failed"@,
        RunStatus::NeedsInput => "needs_input"@,
    }
}

impl RunStatus {
    /// The status as reported: `running`, `completed`, `failed` or `needs_input`.
    pub fn name(self) -> (r: &'static str)
        ensures
            r@ == status_text(self),
    {
        match self {
            RunStatus::Running => "running",
            RunStatus::Completed => "completed",
            RunStatus::Failed => "failed",
            RunStatus::NeedsInput => "needs_input",
        }
    }
}

/// What a turn produced: plans, agent messages and deltas, and other items.
#[derive(Debug)]
pub struct TurnRecord {
    pub plans: Vec<String>,
    pub agent_messages: Vec<String>,
    pub agent_deltas: Vec<String>,
    pub items: Vec<Json>,
}

pub struct TurnRecordV {
    pub plans: Seq<Seq<char>>,
    pub agent_messages: Seq<Seq<char>>,
    pub agent_deltas: Seq<Seq<char>>,
    pub items: Seq<JsonV>,
}

pub open spec fn empty_record() -> TurnRecordV {
    TurnRecordV {
        plans: Seq::empty(),
        agent_messages: Seq::empty(),
        agent_deltas: Seq::empty(),
        items: Seq::empty(),
    }
}

/// The method of a message.
pub open spec fn method_of(m: JsonV) -> Option<Seq<char>> {
    jstr(jget(m, "method"@))
}

/// The item of an `item/completed` notification (`params.item`, `null` when absent).
pub open spec fn completed_item(m: JsonV) -> JsonV {
    or_null(jpath(m, seq!["params"@, "item"@]))
}

/// The type of an item; empty when it has none.
pub open spec fn item_type(item: JsonV) -> Seq<char> {
    match jstr(jget(item, "type"@)) {
        Some(t) => t,
        None => Seq::empty(),
    }
}

/// What an `item/completed` notification adds: a plan's text to the plans; an agent message's
/// text to the messages, and its `<proposed_plan>` block to the plans; any other item to the
/// items.
pub open spec fn collect_item_effect(r: TurnRecordV, m: JsonV) -> TurnRecordV {
    let item = completed_item(m);
    let ty = item_type(item);
    let text = jstr(jget(item, "text"@));
    if ty == "plan"@ {
        match text {
            Some(t) => TurnRecordV { plans: r.plans.push(t), ..r },
            None => r,
        }
    } else if ty == "agentMessage"@ || ty == "agent_message"@ {
        match text {
            Some(t) => {
                let r2 = TurnRecordV { agent_messages: r.agent_messages.push(t), ..r };
                match proposed_plan(t) {
                    Some(p) => TurnRecordV { plans: r2.plans.push(p), ..r2 },
                    None => r2,
                }
            },
            None => r,
        }
    } else {
        TurnRecordV { items: r.items.push(item), ..r }
    }
}

/// What an `item/agentMessage/delta` notification adds: its `params.delta` text.
pub open spec fn delta_effect(r: TurnRecordV, m: JsonV) -> TurnRecordV {
    match jstr(jpath(m, seq!["params"@, "delta"@])) {
        Some(d) => TurnRecordV { agent_deltas: r.agent_deltas.push(d), ..r },
        None => r,
    }
}

impl TurnRecord {
    pub open spec fn model(&self) -> TurnRecordV {
        TurnRecordV {
            plans: strs(self.plans@),
            agent_messages: strs(self.agent_messages@),
            agent_deltas: strs(self.agent_deltas@),
            items: jsons(self.items@),
        }
    }

    pub fn new() -> (r: TurnRecord)
        ensures
            r.model() == empty_record(),
    {
        let r = TurnRecord {
            plans: Vec::new(),
            agent_messages: Vec::new(),
            agent_deltas: Vec::new(),
            items: Vec::new(),
        };
        assert(r.model().plans =~= Seq::<Seq<char>>::empty());
        assert(r.model().agent_messages =~= Seq::<Seq<char>>::empty());
        assert(r.model().agent_deltas =~= Seq::<Seq<char>>::empty());
        assert(r.model().items =~= Seq::<JsonV>::empty());
        r
    }

    /// Empties the record.
    pub fn clear(&mut self)
        ensures
            final(self).model() == empty_record(),
    {
        self.plans.clear();
        self.agent_messages.clear();
        self.agent_deltas.clear();
        self.items.clear();
        assert(self.model().plans =~= Seq::<Seq<char>>::empty());
        assert(self.model().agent_messages =~= Seq::<Seq<char>>::empty());
        assert(self.model().agent_deltas =~= Seq::<Seq<char>>::empty());
        assert(self.model().items =~= Seq::<JsonV>::empty());
    }

    fn push_plan(&mut self, p: String)
        ensures
            final(self).model() == (TurnRecordV {
                plans: old(self).model().plans.push(p@),
                ..old(self).model()
            }),
    {
        self.plans.push(p);
        assert(self.model().plans =~= old(self).model().plans.push(p@));
    }

    /// Records an `item/completed` notification.
    pub fn collect_item(&mut self, message: &Json)
        ensures
            final(self).model() == collect_item_effect(old(self).model(), message@),
    {
        let path = ["params", "item"];
        assert(path@.map_values(|k: &str| k@) =~= seq!["params"@, "item"@]);
        let item: Json = Json::cloned_or_null(message.path(&path));
        let ty: String = match item.get("type") {
            Some(t) => match t.as_str() {
                Some(s) => owned(s),
                None => String::new(),
            },
            None => String::new(),
        };
        let text: Option<String> = match item.get("text") {
            Some(t) => match t.as_str() {
                Some(s) => Some(owned(s)),
                None => None,
            },
            None => None,
        };
        if str_eq(ty.as_str(), "plan") {
            if let Some(t) = text {
                self.push_plan(t);
            }
        } else if str_eq(ty.as_str(), "agentMessage") || str_eq(ty.as_str(), "agent_message") {
            if let Some(t) = text {
                let plan = extract_proposed_plan(t.as_str());
                let ghost tv = t@;
                self.agent_messages.push(t);
                assert(self.model().agent_messages =~= old(self).model().agent_messages.push(tv));
                if let Some(p) = plan {
                    self.push_plan(p);
                }
            }
        } else {
            let ghost iv = item@;
            self.items.push(item);
            assert(self.model().items =~= old(self).model().items.push(iv));
        }
    }

    /// Records an `item/agentMessage/delta` notification.
    pub fn collect_delta(&mut self, message: &Json)
        ensures
            final(self).model() == delta_effect(old(self).model(), message@),
    {
        let path = ["params", "delta"];
        assert(path@.map_values(|k: &str| k@) =~= seq!["params"@, "delta"@]);
        if let Some(d) = message.path(&path) {
            if let Some(s) = d.as_str() {
                let t = owned(s);
                self.agent_deltas.push(t);
                assert(self.model().agent_deltas =~= old(self).model().agent_deltas.push(s@));
            }
        }
    }
}

/// The method of a message, when it has one.
pub fn method_exec(message: &Json) -> (r: Option<&str>)
    ensures
        match r {
            Some(s) => method_of(message@) == Some(s@),
            None => method_of(message@) is None,
        },
{
    match message.get("method") {
        Some(m) => m.as_str(),
        None => None,
    }
}

/// The `params` of a message, or `null` (`message["params"]`).
pub fn params_or_null(message: &Json) -> (r: Json)
    ensures
        r@ == or_null(jget(message@, "params"@)),
{
    message.member_or_null("params")
}

} // verus!
