//! Actions of a power strategy, and the executor that fires them as the
//! application prints their hints.
use vstd::prelude::*;
use crate::json::{JsonValue, lookup, spec_lookup};
use crate::state::{
    State, StateManager, SwitchStep, debug_text, display_text, state_of_json, switch_settings, switch_sleep,
    switched, valid_state_json,
};
use crate::text::{chars_of, contains_chars, contains_text, occurs_at};

verus! {

/// An action of the strategy: when the application's output shows `hint`, the
/// cluster goes through the states of the tune set, one after the other.
pub struct Action {
    pub hint: String,
    tune_set: Vec<State>,
}

/// Runs an application and fires the actions of its strategy in order: the
/// next action fires once everything the application has printed so far
/// contains the action's hint.
pub struct Executor {
    notice: Vec<Action>,
    notice_index: usize,
    state_manager: StateManager,
    executable_file: String,
    output: Vec<char>,
}

// ---------------------------------------------------------------------------
// The model

impl View for Action {
    type V = (Seq<char>, Seq<State>);

    closed spec fn view(&self) -> (Seq<char>, Seq<State>) {
        (self.hint@, self.tune_set@)
    }
}

/// Every item of `items` describes a state.
pub open spec fn valid_states_json(items: Seq<JsonValue>) -> bool {
    forall|i: int| 0 <= i < items.len() ==> valid_state_json(#[trigger] items[i])
}

/// `v` describes an action: an object with a string member `hint` and a member
/// `action` that is an array of states.
pub open spec fn valid_action_json(v: JsonValue) -> bool {
    match v {
        JsonValue::Object(entries) => {
            &&& spec_lookup(entries@, "hint"@) matches Some(h) && h is String
            &&& spec_lookup(entries@, "action"@) matches Some(a) && (a matches JsonValue::Array(
                items,
            ) && valid_states_json(items@))
        },
        _ => false,
    }
}

/// The states that an array of state objects describes.
pub open spec fn states_of_json(items: Seq<JsonValue>) -> Seq<State> {
    Seq::new(items.len(), |i: int| state_of_json(items[i]))
}

/// The text of a JSON string.
pub open spec fn text_of_json(v: JsonValue) -> Seq<char> {
    match v {
        JsonValue::String(s) => s@,
        _ => Seq::empty(),
    }
}

/// The items of a JSON array.
pub open spec fn items_of_json(v: JsonValue) -> Seq<JsonValue> {
    match v {
        JsonValue::Array(items) => items@,
        _ => Seq::empty(),
    }
}

/// The hint and the tune set of the action that a valid object describes.
pub open spec fn action_of_json(v: JsonValue) -> (Seq<char>, Seq<State>) {
    match v {
        JsonValue::Object(entries) => (
            text_of_json(spec_lookup(entries@, "hint"@)->0),
            states_of_json(items_of_json(spec_lookup(entries@, "action"@)->0)),
        ),
        _ => (Seq::empty(), Seq::empty()),
    }
}

/// Every item of `items` describes an action.
pub open spec fn valid_actions_json(items: Seq<JsonValue>) -> bool {
    forall|i: int| 0 <= i < items.len() ==> valid_action_json(#[trigger] items[i])
}

/// `v` describes a strategy: an array of actions.
pub open spec fn valid_action_set_json(v: JsonValue) -> bool {
    match v {
        JsonValue::Array(items) => valid_actions_json(items@),
        _ => false,
    }
}

/// The hints and tune sets of `actions`.
pub open spec fn action_views(actions: Seq<Action>) -> Seq<(Seq<char>, Seq<State>)> {
    actions.map_values(|a: Action| a@)
}

/// The actions that a valid strategy describes.
pub open spec fn actions_of_json(v: JsonValue) -> Seq<(Seq<char>, Seq<State>)> {
    let items = items_of_json(v);
    Seq::new(items.len(), |i: int| action_of_json(items[i]))
}

/// The state the cluster is in after going through `tune_set` from `current`.
pub open spec fn act_state(current: State, tune_set: Seq<State>) -> State
    decreases tune_set.len(),
{
    if tune_set.len() == 0 {
        current
    } else {
        switched(act_state(current, tune_set.drop_last()), tune_set.last())
    }
}

/// `steps` are the steps of going through `tune_set`, one per state.
pub open spec fn act_steps(steps: Seq<SwitchStep>, tune_set: Seq<State>) -> bool {
    &&& steps.len() == tune_set.len()
    &&& forall|i: int|
        0 <= i < steps.len() ==> {
            &&& (#[trigger] steps[i]).settings@ == switch_settings(tune_set[i])
            &&& steps[i].sleep_ms == switch_sleep(tune_set[i])
        }
}

/// The debug texts of `states`, separated by `, `.
pub open spec fn debug_list_text(states: Seq<State>) -> Seq<char>
    decreases states.len(),
{
    if states.len() == 0 {
        Seq::empty()
    } else if states.len() == 1 {
        debug_text(states[0])
    } else {
        debug_list_text(states.drop_last()) + ", "@ + debug_text(states.last())
    }
}

/// The display text of an action.
pub open spec fn action_text(hint: Seq<char>, tune_set: Seq<State>) -> Seq<char> {
    "(hint: "@ + hint + ", action_set: ["@ + debug_list_text(tune_set) + "])"@
}

// ---------------------------------------------------------------------------
// Actions

fn states_from_json(items: &Vec<JsonValue>) -> (r: Vec<State>)
    requires
        valid_states_json(items@),
    ensures
        r@ == states_of_json(items@),
{
    let mut r: Vec<State> = Vec::new();
    for i in 0..items.len()
        invariant
            valid_states_json(items@),
            r@ == states_of_json(items@).take(i as int),
    {
        r.push(State::from_json(&items[i]));
        assert(r@ =~= states_of_json(items@).take(i + 1));
    }
    assert(r@ =~= states_of_json(items@));
    r
}

fn states_valid(items: &Vec<JsonValue>) -> (r: bool)
    ensures
        r == valid_states_json(items@),
{
    for i in 0..items.len()
        invariant
            forall|j: int| 0 <= j < i ==> valid_state_json(#[trigger] items@[j]),
    {
        if !State::is_valid_json(&items[i]) {
            return false;
        }
    }
    true
}

impl Action {
    /// Reads an action from a JSON object of the strategy document.
    pub fn from_json(raw_data: &JsonValue) -> (a: Action)
        requires
            valid_action_json(*raw_data),
        ensures
            a@ == action_of_json(*raw_data),
    {
        let obj = raw_data.as_object().unwrap();
        let hint = lookup(obj, &String::from_str("hint")).unwrap().as_str().unwrap().clone();
        let items = lookup(obj, &String::from_str("action")).unwrap().as_array().unwrap();
        let tune_set = states_from_json(items);
        Action { hint, tune_set }
    }

    /// Whether `raw_data` can be read as an action by `from_json`.
    pub fn is_valid_json(raw_data: &JsonValue) -> (r: bool)
        ensures
            r == valid_action_json(*raw_data),
    {
        match raw_data.as_object() {
            None => false,
            Some(obj) => {
                let hint_ok = match lookup(obj, &String::from_str("hint")) {
                    Some(h) => h.as_str().is_some(),
                    None => false,
                };
                let action_ok = match lookup(obj, &String::from_str("action")) {
                    Some(a) => match a.as_array() {
                        Some(items) => states_valid(items),
                        None => false,
                    },
                    None => false,
                };
                hint_ok && action_ok
            },
        }
    }

    /// The hint whose appearance fires the action.
    pub fn hint(&self) -> (r: &String)
        ensures
            r@ == self@.0,
    {
        &self.hint
    }

    /// The states the action goes through.
    pub fn tune_set(&self) -> (r: &Vec<State>)
        ensures
            r@ == self@.1,
    {
        &self.tune_set
    }

    /// Goes through the tune set: returns one step per state, in order, and
    /// leaves the state manager in the state reached.
    pub fn act(&self, state_manager: &mut StateManager) -> (steps: Vec<SwitchStep>)
        ensures
            final(state_manager)@ == act_state(old(state_manager)@, self@.1),
            act_steps(steps@, self@.1),
    {
        let mut steps: Vec<SwitchStep> = Vec::new();
        for i in 0..self.tune_set.len()
            invariant
                state_manager@ == act_state(old(state_manager)@, self@.1.take(i as int)),
                act_steps(steps@, self@.1.take(i as int)),
        {
            let step = state_manager.switch_state(self.tune_set[i]);
            steps.push(step);
            assert(self@.1.take(i + 1).drop_last() =~= self@.1.take(i as int));
        }
        assert(self@.1.take(self@.1.len() as int) =~= self@.1);
        steps
    }

    /// The text that displays the action, such as
    /// `(hint: POL, action_set: [State{GPU_Freq: 585MHz,Lasting_time: 5ms,}])`.
    pub fn to_display_string(&self) -> (r: String)
        ensures
            r@ == action_text(self@.0, self@.1),
    {
        let mut out = String::new();
        out.append("(hint: ");
        out.append(self.hint.as_str());
        out.append(", action_set: [");
        let ghost start = out@;
        for i in 0..self.tune_set.len()
            invariant
                out@ == start + debug_list_text(self@.1.take(i as int)),
        {
            let ghost before = self@.1.take(i as int);
            if i > 0 {
                out.append(", ");
            }
            let text = self.tune_set[i].to_debug_string();
            out.append(text.as_str());
            let ghost after = self@.1.take(i + 1);
            assert(after.drop_last() =~= before);
            assert(out@ =~= start + debug_list_text(after));
        }
        assert(self@.1.take(self@.1.len() as int) =~= self@.1);
        out.append("])");
        assert(out@ =~= action_text(self@.0, self@.1));
        out
    }
}

// ---------------------------------------------------------------------------
// The executor

impl Executor {
    /// The actions, in the order they fire.
    pub closed spec fn actions(&self) -> Seq<(Seq<char>, Seq<State>)> {
        action_views(self.notice@)
    }

    /// How many actions have fired.
    pub closed spec fn fired(&self) -> nat {
        self.notice_index as nat
    }

    /// The state the cluster is in.
    pub closed spec fn cluster_state(&self) -> State {
        self.state_manager@
    }

    /// Everything the application has printed so far.
    pub closed spec fn printed(&self) -> Seq<char> {
        self.output@
    }

    /// The application to run.
    pub closed spec fn program(&self) -> Seq<char> {
        self.executable_file@
    }

    /// No more actions have fired than there are.
    pub open spec fn wf(&self) -> bool {
        self.fired() <= self.actions().len()
    }

    /// An executor that will run `executable_file` under the strategy
    /// `raw_action_set`, starting from the state that `state_manager` is in.
    pub fn new(executable_file: String, raw_action_set: &JsonValue, state_manager: StateManager) -> (e:
        Executor)
        requires
            valid_action_set_json(*raw_action_set),
        ensures
            e.wf(),
            e.actions() == actions_of_json(*raw_action_set),
            e.fired() == 0,
            e.cluster_state() == state_manager@,
            e.printed() == Seq::<char>::empty(),
            e.program() == executable_file@,
    {
        let arr = raw_action_set.as_array().unwrap();
        let mut notice: Vec<Action> = Vec::new();
        for i in 0..arr.len()
            invariant
                valid_action_set_json(*raw_action_set),
                JsonValue::Array(*arr) == *raw_action_set,
                notice@.len() == i,
                action_views(notice@) == actions_of_json(*raw_action_set).take(i as int),
        {
            let ghost prev = notice@;
            let a = Action::from_json(&arr[i]);
            notice.push(a);
            assert(notice@ == prev.push(a));
            assert(items_of_json(*raw_action_set) == arr@);
            assert(a@ == actions_of_json(*raw_action_set)[i as int]);
            assert forall|j: int| 0 <= j <= i implies #[trigger] action_views(notice@)[j]
                == actions_of_json(*raw_action_set).take(i + 1)[j] by {
                if j < i {
                    assert(notice@[j] == prev[j]);
                    assert(action_views(prev)[j] == actions_of_json(*raw_action_set).take(i as int)[j]);
                } else {
                    assert(notice@[j] == a);
                }
            }
            assert(action_views(notice@) =~= actions_of_json(*raw_action_set).take(i + 1));
        }
        assert(action_views(notice@) =~= actions_of_json(*raw_action_set));
        Executor {
            notice,
            notice_index: 0,
            state_manager,
            executable_file,
            output: Vec::new(),
        }
    }

    /// Whether `raw_action_set` can be read as a strategy by `new`.
    pub fn is_valid_action_set(raw_action_set: &JsonValue) -> (r: bool)
        ensures
            r == valid_action_set_json(*raw_action_set),
    {
        match raw_action_set.as_array() {
            None => false,
            Some(items) => {
                for i in 0..items.len()
                    invariant
                        JsonValue::Array(*items) == *raw_action_set,
                        forall|j: int| 0 <= j < i ==> valid_action_json(#[trigger] items@[j]),
                {
                    if !Action::is_valid_json(&items[i]) {
                        assert(!valid_action_json(items@[i as int]));
                        assert(!valid_actions_json(items@));
                        return false;
                    }
                }
                true
            },
        }
    }

    /// Takes a piece of the application's output. Where the next action's hint
    /// now occurs in everything printed so far, the action fires: its steps are
    /// returned and the cluster's state becomes the one they reach.
    pub fn on_output(&mut self, line: &str) -> (r: Option<Vec<SwitchStep>>)
        requires
            old(self).wf(),
        ensures
            final(self).wf(),
            final(self).printed() == old(self).printed() + line@,
            final(self).actions() == old(self).actions(),
            final(self).program() == old(self).program(),
            ({
                let fires = old(self).fired() < old(self).actions().len() && contains_text(
                    final(self).printed(),
                    old(self).actions()[old(self).fired() as int].0,
                );
                if fires {
                    let tune_set = old(self).actions()[old(self).fired() as int].1;
                    &&& r matches Some(steps) && act_steps(steps@, tune_set)
                    &&& final(self).fired() == old(self).fired() + 1
                    &&& final(self).cluster_state() == act_state(old(self).cluster_state(), tune_set)
                } else {
                    &&& r is None
                    &&& final(self).fired() == old(self).fired()
                    &&& final(self).cluster_state() == old(self).cluster_state()
                }
            }),
    {
        let line_chars = chars_of(line);
        let ghost old_output = self.output@;
        for i in 0..line_chars.len()
            invariant
                self.output@ == old_output + line_chars@.take(i as int),
                self.notice == old(self).notice,
                self.notice_index == old(self).notice_index,
                self.state_manager == old(self).state_manager,
                self.executable_file == old(self).executable_file,
        {
            self.output.push(line_chars[i]);
            assert(self.output@ =~= old_output + line_chars@.take(i + 1));
        }
        assert(line_chars@.take(line_chars@.len() as int) =~= line_chars@);
        if self.notice_index < self.notice.len() {
            let hint = chars_of(self.notice[self.notice_index].hint.as_str());
            assert(self.notice[self.notice_index as int]@ == self.actions()[self.notice_index as int]);
            if contains_chars(&self.output, &hint) {
                let steps = self.notice[self.notice_index].act(&mut self.state_manager);
                self.notice_index = self.notice_index + 1;
                return Some(steps);
            }
        }
        None
    }

    /// The state manager of the cluster.
    pub fn state_manager(&self) -> (m: &StateManager)
        ensures
            m@ == self.cluster_state(),
    {
        &self.state_manager
    }

    /// The application to run.
    pub fn executable_file(&self) -> (f: &String)
        ensures
            f@ == self.program(),
    {
        &self.executable_file
    }

    /// The actions, in the order they fire.
    pub fn notice(&self) -> (r: &Vec<Action>)
        ensures
            action_views(r@) == self.actions(),
    {
        &self.notice
    }

    /// How many actions have fired.
    pub fn notice_index(&self) -> (n: usize)
        ensures
            n == self.fired(),
    {
        self.notice_index
    }
}

// ---------------------------------------------------------------------------
// Laws of acting

/// An action reads its hint and its tune set from the members of its object:
/// the hint is the whole text of the `hint` string, of any length, and the
/// tune set has one state per item of the `action` array, each read from that
/// item.
pub proof fn lemma_action_read_from_members(v: JsonValue, h: String, items: Vec<JsonValue>)
    requires
        valid_action_json(v),
        v matches JsonValue::Object(e) && spec_lookup(e@, "hint"@) == Some(JsonValue::String(h))
            && spec_lookup(e@, "action"@) == Some(JsonValue::Array(items)),
    ensures
        action_of_json(v).0 == h@,
        action_of_json(v).1.len() == items@.len(),
        forall|i: int|
            0 <= i < items@.len() ==> #[trigger] action_of_json(v).1[i] == state_of_json(items@[i]),
{
}

/// The display text of an action with one state: the hint, then that state's
/// debug text (its display text inside `State{` and `}`).
pub proof fn lemma_action_text_one_state(hint: Seq<char>, s: State)
    ensures
        action_text(hint, seq![s]) == "(hint: "@ + hint + ", action_set: ["@ + ("State{"@
            + display_text(s) + "}"@) + "])"@,
{
}

/// Adding a state to a tune set adds `, ` and that state's debug text to the
/// list shown.
pub proof fn lemma_debug_list_push(states: Seq<State>, s: State)
    requires
        states.len() > 0,
    ensures
        debug_list_text(states.push(s)) == debug_list_text(states) + ", "@ + "State{"@ + display_text(s)
            + "}"@,
{
    assert(states.push(s).drop_last() =~= states);
    assert(debug_list_text(states.push(s)) =~= debug_list_text(states) + ", "@ + "State{"@
        + display_text(s) + "}"@);
}


/// After an action, each of the CPU frequency, GPU frequency and fan speed is
/// the one given by the last state of the tune set that gives it, or the one
/// before the action where no state gives it; the lasting time is unchanged.
pub proof fn lemma_act_last_given_wins(current: State, tune_set: Seq<State>, i: int)
    ensures
        act_state(current, tune_set).lasting_time == current.lasting_time,
        (forall|j: int| 0 <= j < tune_set.len() ==> (#[trigger] tune_set[j]).cpu_freq is None)
            ==> act_state(current, tune_set).cpu_freq == current.cpu_freq,
        (forall|j: int| 0 <= j < tune_set.len() ==> (#[trigger] tune_set[j]).gpu_freq is None)
            ==> act_state(current, tune_set).gpu_freq == current.gpu_freq,
        (forall|j: int| 0 <= j < tune_set.len() ==> (#[trigger] tune_set[j]).fan_speed is None)
            ==> act_state(current, tune_set).fan_speed == current.fan_speed,
        0 <= i < tune_set.len() && tune_set[i].cpu_freq is Some && (forall|j: int|
            i < j < tune_set.len() ==> (#[trigger] tune_set[j]).cpu_freq is None) ==> act_state(
            current,
            tune_set,
        ).cpu_freq == tune_set[i].cpu_freq,
        0 <= i < tune_set.len() && tune_set[i].gpu_freq is Some && (forall|j: int|
            i < j < tune_set.len() ==> (#[trigger] tune_set[j]).gpu_freq is None) ==> act_state(
            current,
            tune_set,
        ).gpu_freq == tune_set[i].gpu_freq,
        0 <= i < tune_set.len() && tune_set[i].fan_speed is Some && (forall|j: int|
            i < j < tune_set.len() ==> (#[trigger] tune_set[j]).fan_speed is None) ==> act_state(
            current,
            tune_set,
        ).fan_speed == tune_set[i].fan_speed,
    decreases tune_set.len(),
{
    if tune_set.len() > 0 {
        let front = tune_set.drop_last();
        lemma_act_last_given_wins(current, front, i);
        assert forall|j: int| 0 <= j < front.len() implies #[trigger] front[j] == tune_set[j] by {}
    }
}

/// Once a hint occurs in the output, it still occurs after more output: text
/// that holds the hint anywhere is found, and a hint longer than the output is
/// never found.
pub proof fn lemma_hint_search(before: Seq<char>, hint: Seq<char>, after: Seq<char>, more: Seq<char>)
    ensures
        contains_text(before + hint + after, hint),
        contains_text(before, hint) ==> contains_text(before + more, hint),
        hint.len() > before.len() ==> !contains_text(before, hint),
{
    let t = before + hint + after;
    assert(t.subrange(before.len() as int, (before.len() + hint.len()) as int) =~= hint);
    assert(occurs_at(t, hint, before.len() as int));
    if contains_text(before, hint) {
        let k = choose|k: int| occurs_at(before, hint, k);
        assert((before + more).subrange(k, k + hint.len()) =~= before.subrange(k, k + hint.len()));
        assert(occurs_at(before + more, hint, k));
    }
}

/// An object is a readable action if and only if it has a `hint` string and an
/// `action` array whose every item is a readable state.
pub proof fn lemma_action_validity_is_memberwise(v: JsonValue)
    ensures
        valid_action_json(v) <==> (v matches JsonValue::Object(e) && {
            &&& spec_lookup(e@, "hint"@) matches Some(JsonValue::String(_))
            &&& spec_lookup(e@, "action"@) matches Some(JsonValue::Array(items))
            &&& forall|i: int| 0 <= i < items@.len() ==> valid_state_json(#[trigger] items@[i])
        }),
{
}

/// A strategy is an array of actions, read one per item and in order, and it
/// is readable if and only if every item is a readable action.
pub proof fn lemma_action_set_read_per_item(items: Vec<JsonValue>)
    ensures
        valid_action_set_json(JsonValue::Array(items)) <==> forall|i: int|
            0 <= i < items@.len() ==> valid_action_json(#[trigger] items@[i]),
        actions_of_json(JsonValue::Array(items)).len() == items@.len(),
        forall|i: int|
            0 <= i < items@.len() ==> #[trigger] actions_of_json(JsonValue::Array(items))[i]
                == action_of_json(items@[i]),
{
}

/// Going through `a` and then `b` is going through `a + b`.
pub proof fn lemma_act_concat(current: State, a: Seq<State>, b: Seq<State>)
    ensures
        act_state(current, a + b) == act_state(act_state(current, a), b),
    decreases b.len(),
{
    if b.len() == 0 {
        assert(a + b =~= a);
    } else {
        assert((a + b).drop_last() =~= a + b.drop_last());
        lemma_act_concat(current, a, b.drop_last());
    }
}

/// Acting keeps a filled state filled, so that `reset` stays possible.
pub proof fn lemma_act_keeps_filled(current: State, tune_set: Seq<State>)
    requires
        current.is_filled(),
    ensures
        act_state(current, tune_set).is_filled(),
    decreases tune_set.len(),
{
    if tune_set.len() > 0 {
        lemma_act_keeps_filled(current, tune_set.drop_last());
    }
}

} // verus!
