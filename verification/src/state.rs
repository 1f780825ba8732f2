//! Hardware states of the cluster (CPU frequency, GPU frequency, fan speed)
//! and the manager that decides which settings a change of state issues.
use vstd::prelude::*;
use crate::json::{JsonNumber, JsonValue, lookup, spec_as_u64, spec_lookup};
use crate::text::{decimal, push_decimal};

verus! {

/// How long, in milliseconds, a state is held when the strategy gives no time.
pub const DEFAULT_LASTING_TIME_MS: u64 = 1;

/// A state of the cluster. A field left at `None` is not part of the state:
/// switching to the state leaves that setting as it is.
#[derive(Clone, Copy, PartialEq, Eq, Structural)]
pub struct State {
    /// CPU frequency in MHz.
    pub cpu_freq: Option<usize>,
    /// GPU frequency in MHz.
    pub gpu_freq: Option<usize>,
    /// Fan speed in percent.
    pub fan_speed: Option<usize>,
    /// How long the state is held, in milliseconds.
    pub lasting_time: Option<u64>,
}

/// A device whose setting can be changed.
#[derive(Clone, Copy, PartialEq, Eq, Structural)]
pub enum Device {
    Cpu,
    Gpu,
    Fan,
}

/// One setting to apply: a frequency in MHz for the CPU or the GPU, a speed in
/// percent for the fan.
#[derive(Clone, Copy, PartialEq, Eq, Structural)]
pub struct Setting {
    pub device: Device,
    pub value: usize,
}

/// What one change of state asks of the cluster: apply `settings` in order,
/// then hold the state for `sleep_ms` milliseconds.
pub struct SwitchStep {
    pub settings: Vec<Setting>,
    pub sleep_ms: u64,
}

/// Decides the settings that the cluster is given, and remembers the state it
/// is in.
pub struct StateManager {
    current_state: State,
}

// ---------------------------------------------------------------------------
// The model

impl State {
    /// The CPU frequency, the GPU frequency and the fan speed are all given.
    pub open spec fn is_filled(self) -> bool {
        &&& self.cpu_freq is Some
        &&& self.gpu_freq is Some
        &&& self.fan_speed is Some
    }
}

/// The settings that `value` asks for on `device`: one, or none.
pub open spec fn optional_setting(device: Device, value: Option<usize>) -> Seq<Setting> {
    match value {
        Some(v) => seq![Setting { device, value: v }],
        None => Seq::empty(),
    }
}

/// The settings that switching to `target` issues: CPU, then GPU, then fan,
/// each only where `target` gives it.
pub open spec fn switch_settings(target: State) -> Seq<Setting> {
    optional_setting(Device::Cpu, target.cpu_freq) + optional_setting(Device::Gpu, target.gpu_freq)
        + optional_setting(Device::Fan, target.fan_speed)
}

/// How long switching to `target` holds it.
pub open spec fn switch_sleep(target: State) -> u64 {
    match target.lasting_time {
        Some(ms) => ms,
        None => DEFAULT_LASTING_TIME_MS,
    }
}

/// One setting field after switching: the target's where it gives one.
pub open spec fn override_field(current: Option<usize>, target: Option<usize>) -> Option<usize> {
    if target is Some { target } else { current }
}

/// The state the cluster is in after switching from `current` to `target`.
pub open spec fn switched(current: State, target: State) -> State {
    State {
        cpu_freq: override_field(current.cpu_freq, target.cpu_freq),
        gpu_freq: override_field(current.gpu_freq, target.gpu_freq),
        fan_speed: override_field(current.fan_speed, target.fan_speed),
        lasting_time: current.lasting_time,
    }
}

/// The settings that restore a filled state: CPU, GPU, fan.
pub open spec fn reset_settings(s: State) -> Seq<Setting> {
    seq![
        Setting { device: Device::Cpu, value: s.cpu_freq->0 },
        Setting { device: Device::Gpu, value: s.gpu_freq->0 },
        Setting { device: Device::Fan, value: s.fan_speed->0 },
    ]
}

/// The command line that applies a setting on the cluster.
pub open spec fn command_text(s: Setting) -> Seq<char> {
    match s.device {
        Device::Cpu => "SETFREQ CPU "@ + decimal(s.value as nat),
        Device::Gpu => "SETFREQ GPU "@ + decimal(s.value as nat),
        Device::Fan => "SETSPEED FAN "@ + decimal(s.value as nat),
    }
}

// ---------------------------------------------------------------------------
// Reading a state from the strategy document

/// The JSON member `key` of `entries`, if present, holds a number that fits in a `usize`.
pub open spec fn valid_usize_member(entries: Seq<(String, JsonValue)>, key: Seq<char>) -> bool {
    spec_lookup(entries, key) matches Some(v) ==> (spec_as_u64(v) matches Some(n) && n <= usize::MAX)
}

/// The JSON member `key` of `entries`, if present, holds an unsigned number.
pub open spec fn valid_u64_member(entries: Seq<(String, JsonValue)>, key: Seq<char>) -> bool {
    spec_lookup(entries, key) matches Some(v) ==> spec_as_u64(v) is Some
}

/// The number held by the member `key`, if present.
pub open spec fn u64_member(entries: Seq<(String, JsonValue)>, key: Seq<char>) -> Option<u64> {
    match spec_lookup(entries, key) {
        Some(v) => Some(spec_as_u64(v)->0),
        None => None,
    }
}

/// The number held by the member `key`, if present, as a `usize`.
pub open spec fn usize_member(entries: Seq<(String, JsonValue)>, key: Seq<char>) -> Option<usize> {
    match spec_lookup(entries, key) {
        Some(v) => Some(spec_as_u64(v)->0 as usize),
        None => None,
    }
}

/// `v` describes a state: an object whose members `CPU_Freq`, `GPU_Freq`,
/// `Fan_Speed` and `Time`, each optional, are unsigned numbers.
pub open spec fn valid_state_json(v: JsonValue) -> bool {
    match v {
        JsonValue::Object(entries) => {
            &&& valid_usize_member(entries@, "CPU_Freq"@)
            &&& valid_usize_member(entries@, "GPU_Freq"@)
            &&& valid_usize_member(entries@, "Fan_Speed"@)
            &&& valid_u64_member(entries@, "Time"@)
        },
        _ => false,
    }
}

/// The state that a valid JSON object describes; `Time` is in milliseconds.
pub open spec fn state_of_json(v: JsonValue) -> State {
    match v {
        JsonValue::Object(entries) => State {
            cpu_freq: usize_member(entries@, "CPU_Freq"@),
            gpu_freq: usize_member(entries@, "GPU_Freq"@),
            fan_speed: usize_member(entries@, "Fan_Speed"@),
            lasting_time: u64_member(entries@, "Time"@),
        },
        _ => State { cpu_freq: None, gpu_freq: None, fan_speed: None, lasting_time: None },
    }
}

/// `num::ToPrimitive::to_usize` on a `u64`: the same number where it fits in a
/// `usize`, and `None` where it does not.
#[verifier::external_body]
fn u64_to_usize(x: u64) -> (r: Option<usize>)
    ensures
        r == (if x <= usize::MAX { Some(x as usize) } else { None::<usize> }),
{
    num::ToPrimitive::to_usize(&x)
}

fn read_usize_member(entries: &Vec<(String, JsonValue)>, key: &str) -> (r: Option<usize>)
    requires
        valid_usize_member(entries@, key@),
    ensures
        r == usize_member(entries@, key@),
{
    match lookup(entries, &String::from_str(key)) {
        None => None,
        Some(x) => {
            let n = x.as_u64().unwrap();
            Some(u64_to_usize(n).unwrap())
        },
    }
}

fn read_u64_member(entries: &Vec<(String, JsonValue)>, key: &str) -> (r: Option<u64>)
    requires
        valid_u64_member(entries@, key@),
    ensures
        r == u64_member(entries@, key@),
{
    match lookup(entries, &String::from_str(key)) {
        None => None,
        Some(x) => Some(x.as_u64().unwrap()),
    }
}

impl State {
    pub fn new(
        cpu_freq: Option<usize>,
        gpu_freq: Option<usize>,
        fan_speed: Option<usize>,
        lasting_time: Option<u64>,
    ) -> (s: State)
        ensures
            s == (State { cpu_freq, gpu_freq, fan_speed, lasting_time }),
    {
        State { cpu_freq, gpu_freq, fan_speed, lasting_time }
    }

    /// Reads a state from a JSON object of the strategy document.
    pub fn from_json(c: &JsonValue) -> (s: State)
        requires
            valid_state_json(*c),
        ensures
            s == state_of_json(*c),
    {
        let obj = c.as_object().unwrap();
        State {
            cpu_freq: read_usize_member(obj, "CPU_Freq"),
            gpu_freq: read_usize_member(obj, "GPU_Freq"),
            fan_speed: read_usize_member(obj, "Fan_Speed"),
            lasting_time: read_u64_member(obj, "Time"),
        }
    }

    /// Whether `c` can be read as a state by `from_json`.
    pub fn is_valid_json(c: &JsonValue) -> (r: bool)
        ensures
            r == valid_state_json(*c),
    {
        match c.as_object() {
            None => false,
            Some(obj) => {
                member_fits_usize(obj, "CPU_Freq") && member_fits_usize(obj, "GPU_Freq")
                    && member_fits_usize(obj, "Fan_Speed") && member_is_u64(obj, "Time")
            },
        }
    }

    pub fn all_filled(&self) -> (r: bool)
        ensures
            r == self.is_filled(),
    {
        self.cpu_freq.is_some() && self.gpu_freq.is_some() && self.fan_speed.is_some()
    }
}

fn member_fits_usize(entries: &Vec<(String, JsonValue)>, key: &str) -> (r: bool)
    ensures
        r == valid_usize_member(entries@, key@),
{
    match lookup(entries, &String::from_str(key)) {
        None => true,
        Some(x) => match x.as_u64() {
            None => false,
            Some(n) => u64_to_usize(n).is_some(),
        },
    }
}

fn member_is_u64(entries: &Vec<(String, JsonValue)>, key: &str) -> (r: bool)
    ensures
        r == valid_u64_member(entries@, key@),
{
    match lookup(entries, &String::from_str(key)) {
        None => true,
        Some(x) => x.as_u64().is_some(),
    }
}


// ---------------------------------------------------------------------------
// Text of a state

/// The text of a setting: `label`, the number, `unit`; nothing where absent.
pub open spec fn part_text(label: Seq<char>, value: Option<usize>, unit: Seq<char>) -> Seq<char> {
    match value {
        Some(v) => label + decimal(v as nat) + unit,
        None => Seq::empty(),
    }
}

/// The text of a state's fields, with `lasting` as the text of its lasting time.
pub open spec fn fields_text(s: State, lasting: Seq<char>) -> Seq<char> {
    part_text("CPU_Freq: "@, s.cpu_freq, "MHz,"@) + part_text("GPU_Freq: "@, s.gpu_freq, "MHz,"@)
        + part_text("Fan_Speed: "@, s.fan_speed, "%,"@) + if s.lasting_time is Some {
        "Lasting_time: "@ + lasting + ","@
    } else {
        Seq::empty()
    }
}

/// What `std` prints for `{:?}` of `Duration::from_millis(ms)`, such as `5ms`.
pub uninterp spec fn duration_millis_debug(ms: u64) -> Seq<char>;

/// Formats `std::time::Duration::from_millis(ms)` with `Debug`. The result is
/// named, not described: it is what `std` prints, a function of `ms` alone.
#[verifier::external_body]
fn millis_debug_text(ms: u64) -> (r: String)
    ensures
        r@ == duration_millis_debug(ms),
{
    format!("{:?}", std::time::Duration::from_millis(ms))
}

/// The text of the lasting time of a state, where it has one.
pub open spec fn lasting_text(s: State) -> Seq<char> {
    match s.lasting_time {
        Some(ms) => duration_millis_debug(ms),
        None => Seq::empty(),
    }
}

/// The display text of a state: its fields, one after the other.
pub open spec fn display_text(s: State) -> Seq<char> {
    fields_text(s, lasting_text(s))
}

/// The debug text of a state: its display text inside `State{` and `}`.
pub open spec fn debug_text(s: State) -> Seq<char> {
    "State{"@ + display_text(s) + "}"@
}

fn push_part(out: &mut String, label: &str, value: Option<usize>, unit: &str)
    ensures
        final(out)@ == old(out)@ + part_text(label@, value, unit@),
{
    match value {
        Some(v) => {
            out.append(label);
            push_decimal(out, v);
            out.append(unit);
            assert(out@ =~= old(out)@ + part_text(label@, value, unit@));
        },
        None => {
            assert(out@ =~= old(out)@ + part_text(label@, value, unit@));
        },
    }
}

impl State {
    /// The text of the fields, given `lasting` as the text of the lasting time
    /// (used only where the state has one).
    pub fn render_fields(&self, lasting: &str) -> (r: String)
        ensures
            r@ == fields_text(*self, lasting@),
    {
        let mut out = String::new();
        push_part(&mut out, "CPU_Freq: ", self.cpu_freq, "MHz,");
        push_part(&mut out, "GPU_Freq: ", self.gpu_freq, "MHz,");
        push_part(&mut out, "Fan_Speed: ", self.fan_speed, "%,");
        if self.lasting_time.is_some() {
            out.append("Lasting_time: ");
            out.append(lasting);
            out.append(",");
        }
        assert(out@ =~= fields_text(*self, lasting@));
        out
    }

    /// The text that displays the state, such as `GPU_Freq: 765MHz,`.
    pub fn to_display_string(&self) -> (r: String)
        ensures
            r@ == display_text(*self),
    {
        let lasting = match self.lasting_time {
            Some(ms) => millis_debug_text(ms),
            None => String::new(),
        };
        self.render_fields(lasting.as_str())
    }

    /// The debug text of the state, such as `State{GPU_Freq: 765MHz,}`.
    pub fn to_debug_string(&self) -> (r: String)
        ensures
            r@ == debug_text(*self),
    {
        let mut out = String::new();
        out.append("State{");
        let fields = self.to_display_string();
        out.append(fields.as_str());
        out.append("}");
        assert(out@ =~= debug_text(*self));
        out
    }
}

// ---------------------------------------------------------------------------
// Settings and the state manager

impl Setting {
    /// The command line that applies the setting on the cluster.
    pub fn command(&self) -> (r: String)
        ensures
            r@ == command_text(*self),
    {
        let mut out = String::new();
        match self.device {
            Device::Cpu => out.append("SETFREQ CPU "),
            Device::Gpu => out.append("SETFREQ GPU "),
            Device::Fan => out.append("SETSPEED FAN "),
        }
        push_decimal(&mut out, self.value);
        out
    }
}

impl View for StateManager {
    type V = State;

    closed spec fn view(&self) -> State {
        self.current_state
    }
}

fn push_optional_setting(settings: &mut Vec<Setting>, device: Device, value: Option<usize>)
    ensures
        final(settings)@ == old(settings)@ + optional_setting(device, value),
{
    match value {
        Some(v) => {
            settings.push(Setting { device, value: v });
        },
        None => {},
    }
    assert(settings@ =~= old(settings)@ + optional_setting(device, value));
}

impl StateManager {
    /// A manager of a cluster that is in `state`.
    pub fn new(state: State) -> (m: StateManager)
        ensures
            m@ == state,
    {
        StateManager { current_state: state }
    }

    /// The state the cluster is in.
    pub fn current_state(&self) -> (s: State)
        ensures
            s == self@,
    {
        self.current_state
    }

    /// The command line that sets the CPU frequency to `target_freq` MHz.
    pub fn set_cpu_freq(&self, target_freq: usize) -> (cmd: String)
        ensures
            cmd@ == command_text(Setting { device: Device::Cpu, value: target_freq }),
    {
        Setting { device: Device::Cpu, value: target_freq }.command()
    }

    /// The command line that sets the GPU frequency to `target_freq` MHz.
    pub fn set_gpu_freq(&self, target_freq: usize) -> (cmd: String)
        ensures
            cmd@ == command_text(Setting { device: Device::Gpu, value: target_freq }),
    {
        Setting { device: Device::Gpu, value: target_freq }.command()
    }

    /// The command line that sets the fan speed to `target_speed` percent.
    pub fn set_fan_speed(&self, target_speed: usize) -> (cmd: String)
        ensures
            cmd@ == command_text(Setting { device: Device::Fan, value: target_speed }),
    {
        Setting { device: Device::Fan, value: target_speed }.command()
    }

    /// Switches to `target_state`: returns the settings to apply and how long
    /// to hold the state, and records the settings as the current state.
    pub fn switch_state(&mut self, target_state: State) -> (step: SwitchStep)
        ensures
            final(self)@ == switched(old(self)@, target_state),
            step.settings@ == switch_settings(target_state),
            step.sleep_ms == switch_sleep(target_state),
    {
        let mut settings: Vec<Setting> = Vec::new();
        push_optional_setting(&mut settings, Device::Cpu, target_state.cpu_freq);
        push_optional_setting(&mut settings, Device::Gpu, target_state.gpu_freq);
        push_optional_setting(&mut settings, Device::Fan, target_state.fan_speed);
        if target_state.cpu_freq.is_some() {
            self.current_state.cpu_freq = target_state.cpu_freq;
        }
        if target_state.gpu_freq.is_some() {
            self.current_state.gpu_freq = target_state.gpu_freq;
        }
        if target_state.fan_speed.is_some() {
            self.current_state.fan_speed = target_state.fan_speed;
        }
        let sleep_ms = match target_state.lasting_time {
            Some(ms) => ms,
            None => DEFAULT_LASTING_TIME_MS,
        };
        assert(settings@ =~= switch_settings(target_state));
        SwitchStep { settings, sleep_ms }
    }

    /// The settings that put the cluster back into the current state.
    pub fn reset(&self) -> (settings: Vec<Setting>)
        requires
            self@.is_filled(),
        ensures
            settings@ == reset_settings(self@),
    {
        let mut settings: Vec<Setting> = Vec::new();
        settings.push(Setting { device: Device::Cpu, value: self.current_state.cpu_freq.unwrap() });
        settings.push(Setting { device: Device::Gpu, value: self.current_state.gpu_freq.unwrap() });
        settings.push(Setting { device: Device::Fan, value: self.current_state.fan_speed.unwrap() });
        assert(settings@ =~= reset_settings(self@));
        settings
    }
}

// ---------------------------------------------------------------------------
// Laws of switching

/// Switching keeps a filled state filled, so that `reset` stays possible.
pub proof fn lemma_switch_keeps_filled(current: State, target: State)
    requires
        current.is_filled(),
    ensures
        switched(current, target).is_filled(),
{
}

/// After switching to a filled state, `reset` issues exactly the settings
/// that the switch issued.
pub proof fn lemma_reset_after_filled_switch(current: State, target: State)
    requires
        target.is_filled(),
    ensures
        reset_settings(switched(current, target)) == switch_settings(target),
{
    assert(reset_settings(switched(current, target)) =~= switch_settings(target));
}

/// `reset` issues, for each device, the very command that the direct setter
/// issues for the value the manager records. The direct setters take the
/// manager by shared reference and leave the recorded state as it was, so
/// after any of their calls `reset` restores the recorded CPU frequency, GPU
/// frequency and fan speed.
pub proof fn lemma_reset_restores_recorded(s: State)
    requires
        s.is_filled(),
    ensures
        reset_settings(s).len() == 3,
        command_text(reset_settings(s)[0]) == command_text(
            Setting { device: Device::Cpu, value: s.cpu_freq->0 },
        ),
        command_text(reset_settings(s)[1]) == command_text(
            Setting { device: Device::Gpu, value: s.gpu_freq->0 },
        ),
        command_text(reset_settings(s)[2]) == command_text(
            Setting { device: Device::Fan, value: s.fan_speed->0 },
        ),
        command_text(reset_settings(s)[0]) == "SETFREQ CPU "@ + decimal(s.cpu_freq->0 as nat),
        command_text(reset_settings(s)[1]) == "SETFREQ GPU "@ + decimal(s.gpu_freq->0 as nat),
        command_text(reset_settings(s)[2]) == "SETSPEED FAN "@ + decimal(s.fan_speed->0 as nat),
{
}

/// Switching twice to the same state is switching once.
pub proof fn lemma_switch_idempotent(current: State, target: State)
    ensures
        switched(switched(current, target), target) == switched(current, target),
{
}

/// Switching to a state that gives no setting issues nothing and changes nothing.
pub proof fn lemma_switch_to_empty(current: State, target: State)
    requires
        target.cpu_freq is None,
        target.gpu_freq is None,
        target.fan_speed is None,
    ensures
        switched(current, target) == current,
        switch_settings(target).len() == 0,
{
    assert(switch_settings(target) =~= Seq::<Setting>::empty());
}

/// Each device's setting is issued exactly when the target gives it, with the
/// target's value, whatever the other fields of the target are: a CPU, GPU or
/// fan setting with value `v` is among the settings of a switch if and only if
/// the target's CPU frequency, GPU frequency or fan speed is `v`.
pub proof fn lemma_switch_issues_each_given_setting(target: State, v: usize)
    ensures
        (exists|i: int|
            0 <= i < switch_settings(target).len() && #[trigger] switch_settings(target)[i] == (Setting {
                device: Device::Cpu,
                value: v,
            })) <==> target.cpu_freq == Some(v),
        (exists|i: int|
            0 <= i < switch_settings(target).len() && #[trigger] switch_settings(target)[i] == (Setting {
                device: Device::Gpu,
                value: v,
            })) <==> target.gpu_freq == Some(v),
        (exists|i: int|
            0 <= i < switch_settings(target).len() && #[trigger] switch_settings(target)[i] == (Setting {
                device: Device::Fan,
                value: v,
            })) <==> target.fan_speed == Some(v),
{
    lemma_switch_settings_shape(target);
    let s = switch_settings(target);
    if target.cpu_freq == Some(v) {
        assert(s[0] == Setting { device: Device::Cpu, value: v });
    }
    if target.gpu_freq == Some(v) {
        let k: int = if target.cpu_freq is Some { 1 } else { 0 };
        assert(s[k] == Setting { device: Device::Gpu, value: v });
    }
    if target.fan_speed == Some(v) {
        let k: int = s.len() - 1;
        assert(s[k] == Setting { device: Device::Fan, value: v });
    }
}

/// The settings of a switch name each device at most once, CPU before GPU
/// before fan, and there are as many as the target gives.
pub proof fn lemma_switch_settings_order(target: State, i: int, j: int)
    ensures
        switch_settings(target).len() == (if target.cpu_freq is Some { 1int } else { 0 }) + (
        if target.gpu_freq is Some { 1int } else { 0 }) + (if target.fan_speed is Some { 1int } else { 0 }),
        0 <= i < j < switch_settings(target).len() ==> {
            &&& switch_settings(target)[i].device != switch_settings(target)[j].device
            &&& !(switch_settings(target)[j].device is Cpu)
            &&& !(switch_settings(target)[i].device is Fan)
        },
{
    lemma_switch_settings_shape(target);
}

/// The settings of a switch written out: the given fields, in the order CPU,
/// GPU, fan.
proof fn lemma_switch_settings_shape(target: State)
    ensures
        ({
            let s = switch_settings(target);
            let c = Setting { device: Device::Cpu, value: target.cpu_freq->0 };
            let g = Setting { device: Device::Gpu, value: target.gpu_freq->0 };
            let f = Setting { device: Device::Fan, value: target.fan_speed->0 };
            match (target.cpu_freq, target.gpu_freq, target.fan_speed) {
                (Some(_), Some(_), Some(_)) => s == seq![c, g, f],
                (Some(_), Some(_), None) => s == seq![c, g],
                (Some(_), None, Some(_)) => s == seq![c, f],
                (Some(_), None, None) => s == seq![c],
                (None, Some(_), Some(_)) => s == seq![g, f],
                (None, Some(_), None) => s == seq![g],
                (None, None, Some(_)) => s == seq![f],
                (None, None, None) => s == Seq::<Setting>::empty(),
            }
        }),
{
    let s = switch_settings(target);
    let c = Setting { device: Device::Cpu, value: target.cpu_freq->0 };
    let g = Setting { device: Device::Gpu, value: target.gpu_freq->0 };
    let f = Setting { device: Device::Fan, value: target.fan_speed->0 };
    match (target.cpu_freq, target.gpu_freq, target.fan_speed) {
        (Some(_), Some(_), Some(_)) => assert(s =~= seq![c, g, f]),
        (Some(_), Some(_), None) => assert(s =~= seq![c, g]),
        (Some(_), None, Some(_)) => assert(s =~= seq![c, f]),
        (Some(_), None, None) => assert(s =~= seq![c]),
        (None, Some(_), Some(_)) => assert(s =~= seq![g, f]),
        (None, Some(_), None) => assert(s =~= seq![g]),
        (None, None, Some(_)) => assert(s =~= seq![f]),
        (None, None, None) => assert(s =~= Seq::<Setting>::empty()),
    }
}

/// Each member of a state object is read on its own: the state has a CPU
/// frequency, GPU frequency, fan speed or lasting time exactly when the object
/// has the member `CPU_Freq`, `GPU_Freq`, `Fan_Speed` or `Time`, and then it is
/// the number that member holds, whatever the other members are.
pub proof fn lemma_state_members_read_independently(v: JsonValue, n: u64)
    requires
        valid_state_json(v),
    ensures
        v matches JsonValue::Object(e) ==> {
            &&& (state_of_json(v).cpu_freq is Some <==> spec_lookup(e@, "CPU_Freq"@) is Some)
            &&& (spec_lookup(e@, "CPU_Freq"@) == Some(JsonValue::Number(JsonNumber::PosInt(n)))
                ==> state_of_json(v).cpu_freq == Some(n as usize))
            &&& (state_of_json(v).gpu_freq is Some <==> spec_lookup(e@, "GPU_Freq"@) is Some)
            &&& (spec_lookup(e@, "GPU_Freq"@) == Some(JsonValue::Number(JsonNumber::PosInt(n)))
                ==> state_of_json(v).gpu_freq == Some(n as usize))
            &&& (state_of_json(v).fan_speed is Some <==> spec_lookup(e@, "Fan_Speed"@) is Some)
            &&& (spec_lookup(e@, "Fan_Speed"@) == Some(JsonValue::Number(JsonNumber::PosInt(n)))
                ==> state_of_json(v).fan_speed == Some(n as usize))
            &&& (state_of_json(v).lasting_time is Some <==> spec_lookup(e@, "Time"@) is Some)
            &&& (spec_lookup(e@, "Time"@) == Some(JsonValue::Number(JsonNumber::PosInt(n)))
                ==> state_of_json(v).lasting_time == Some(n))
        },
{
}

/// An object is a readable state if and only if each of `CPU_Freq`,
/// `GPU_Freq` and `Fan_Speed`, where present, is an unsigned number that fits
/// in a `usize`, and `Time`, where present, is an unsigned number; nothing
/// relates the members to each other, and other members are ignored.
pub proof fn lemma_state_validity_is_memberwise(v: JsonValue)
    ensures
        valid_state_json(v) <==> (v matches JsonValue::Object(e) && {
            &&& (spec_lookup(e@, "CPU_Freq"@) matches Some(x) ==> (x matches JsonValue::Number(
                JsonNumber::PosInt(k),
            ) && k <= usize::MAX))
            &&& (spec_lookup(e@, "GPU_Freq"@) matches Some(x) ==> (x matches JsonValue::Number(
                JsonNumber::PosInt(k),
            ) && k <= usize::MAX))
            &&& (spec_lookup(e@, "Fan_Speed"@) matches Some(x) ==> (x matches JsonValue::Number(
                JsonNumber::PosInt(k),
            ) && k <= usize::MAX))
            &&& (spec_lookup(e@, "Time"@) matches Some(x) ==> x matches JsonValue::Number(
                JsonNumber::PosInt(_),
            ))
        }),
{
}

/// The display text of a state is the CPU part, the GPU part, the fan part
/// and the lasting-time part, in that order; each part is there exactly when
/// its field is given, and none depends on another field.
pub proof fn lemma_display_text_parts(s: State)
    ensures
        display_text(s) == (match s.cpu_freq {
            Some(c) => "CPU_Freq: "@ + decimal(c as nat) + "MHz,"@,
            None => Seq::<char>::empty(),
        }) + (match s.gpu_freq {
            Some(g) => "GPU_Freq: "@ + decimal(g as nat) + "MHz,"@,
            None => Seq::<char>::empty(),
        }) + (match s.fan_speed {
            Some(f) => "Fan_Speed: "@ + decimal(f as nat) + "%,"@,
            None => Seq::<char>::empty(),
        }) + (match s.lasting_time {
            Some(ms) => "Lasting_time: "@ + duration_millis_debug(ms) + ","@,
            None => Seq::<char>::empty(),
        }),
        debug_text(s) == "State{"@ + display_text(s) + "}"@,
{
}

/// A state with a lasting time of `ms` milliseconds shows it at the end of its
/// display text, whatever its other fields.
pub proof fn lemma_display_ends_with_lasting_time(s: State, ms: u64)
    requires
        s.lasting_time == Some(ms),
    ensures
        ({
            let tail = "Lasting_time: "@ + duration_millis_debug(ms) + ","@;
            &&& display_text(s).len() >= tail.len()
            &&& display_text(s).subrange(display_text(s).len() - tail.len(), display_text(s).len() as int)
                == tail
        }),
{
    lemma_display_text_parts(s);
    let tail = "Lasting_time: "@ + duration_millis_debug(ms) + ","@;
    let front = (match s.cpu_freq {
        Some(c) => "CPU_Freq: "@ + decimal(c as nat) + "MHz,"@,
        None => Seq::<char>::empty(),
    }) + (match s.gpu_freq {
        Some(g) => "GPU_Freq: "@ + decimal(g as nat) + "MHz,"@,
        None => Seq::<char>::empty(),
    }) + (match s.fan_speed {
        Some(f) => "Fan_Speed: "@ + decimal(f as nat) + "%,"@,
        None => Seq::<char>::empty(),
    });
    assert(display_text(s) == front + tail);
    assert(display_text(s).subrange(display_text(s).len() - tail.len(), display_text(s).len() as int)
        =~= tail);
}

/// After a switch, each of the CPU frequency, GPU frequency and fan speed is
/// the target's where the target gives it and the previous one where it does
/// not, whatever the other fields; the lasting time recorded is unchanged.
/// The switch holds the state for the target's time, or 1 ms without one.
pub proof fn lemma_switched_fields(current: State, target: State)
    ensures
        switched(current, target).cpu_freq == (if target.cpu_freq is Some {
            target.cpu_freq
        } else {
            current.cpu_freq
        }),
        switched(current, target).gpu_freq == (if target.gpu_freq is Some {
            target.gpu_freq
        } else {
            current.gpu_freq
        }),
        switched(current, target).fan_speed == (if target.fan_speed is Some {
            target.fan_speed
        } else {
            current.fan_speed
        }),
        switched(current, target).lasting_time == current.lasting_time,
        switch_sleep(target) == (if target.lasting_time is Some {
            target.lasting_time->0
        } else {
            1u64
        }),
{
}

} // verus!
