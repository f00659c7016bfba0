//! Tick-driver decisions: pause state, the stress-test toggle, key dispatch,
//! the demo load wave, and the status banding of the stability score.
//!
//! The surrounding terminal loop performs the actions (spawning a stress
//! thread, reading keys, drawing); everything it has to decide is computed
//! here, on plain values.

use vstd::prelude::*;
use crate::util::{clamp, spec_clamp};

verus! {

/// Whether a tick advances the simulation or leaves it untouched.
#[derive(PartialEq, Eq, Structural, Clone, Copy, Debug)]
pub enum AppState {
    Running,
    Paused,
}

impl AppState {
    /// The pause toggle.
    pub fn toggle_pause(&self) -> (next: AppState)
        ensures
            next == (if *self == AppState::Running {
                AppState::Paused
            } else {
                AppState::Running
            }),
    {
        match self {
            AppState::Running => AppState::Paused,
            AppState::Paused => AppState::Running,
        }
    }
}

/// The monotone banding of the stability score, plus the distinct
/// highest-priority label shown while the reactor is exploding.
#[derive(PartialEq, Eq, Structural, Clone, Copy, Debug)]
pub enum ReactorStatus {
    Meltdown,
    Critical,
    Danger,
    Warning,
    Caution,
    Normal,
    Idle,
}

/// The band a stability score (centi-percent) falls in; the explosion latch
/// overrides every band.
pub open spec fn spec_reactor_status(stability: int, is_exploding: bool) -> ReactorStatus {
    if is_exploding {
        ReactorStatus::Meltdown
    } else if stability > 9_000 {
        ReactorStatus::Critical
    } else if stability > 7_500 {
        ReactorStatus::Danger
    } else if stability > 6_000 {
        ReactorStatus::Warning
    } else if stability > 4_000 {
        ReactorStatus::Caution
    } else if stability > 2_000 {
        ReactorStatus::Normal
    } else {
        ReactorStatus::Idle
    }
}

/// Classify a stability score; see [`spec_reactor_status`].
pub fn reactor_status(stability: i64, is_exploding: bool) -> (s: ReactorStatus)
    ensures
        s == spec_reactor_status(stability as int, is_exploding),
{
    if is_exploding {
        ReactorStatus::Meltdown
    } else if stability > 9_000 {
        ReactorStatus::Critical
    } else if stability > 7_500 {
        ReactorStatus::Danger
    } else if stability > 6_000 {
        ReactorStatus::Warning
    } else if stability > 4_000 {
        ReactorStatus::Caution
    } else if stability > 2_000 {
        ReactorStatus::Normal
    } else {
        ReactorStatus::Idle
    }
}

impl ReactorStatus {
    /// The status line shown for the band.
    pub fn label(&self) -> (s: String)
        ensures
            *self == ReactorStatus::Meltdown ==> s@ == "CRITICAL - MELTDOWN IMMINENT!"@,
            *self == ReactorStatus::Critical ==> s@ == "Critical - Meltdown Imminent!"@,
            *self == ReactorStatus::Danger ==> s@ == "Danger - Severe Radiation Leakage"@,
            *self == ReactorStatus::Warning ==> s@ == "Warning - Reactor Unstable"@,
            *self == ReactorStatus::Caution ==> s@ == "Caution - Increased Radiation Levels"@,
            *self == ReactorStatus::Normal ==> s@ == "Normal - Routine Operation"@,
            *self == ReactorStatus::Idle ==> s@ == "Idle - Minimal Load"@,
    {
        match self {
            ReactorStatus::Meltdown => "CRITICAL - MELTDOWN IMMINENT!".to_owned(),
            ReactorStatus::Critical => "Critical - Meltdown Imminent!".to_owned(),
            ReactorStatus::Danger => "Danger - Severe Radiation Leakage".to_owned(),
            ReactorStatus::Warning => "Warning - Reactor Unstable".to_owned(),
            ReactorStatus::Caution => "Caution - Increased Radiation Levels".to_owned(),
            ReactorStatus::Normal => "Normal - Routine Operation".to_owned(),
            ReactorStatus::Idle => "Idle - Minimal Load".to_owned(),
        }
    }
}

/// What pressing the stress-test key does, given whether a stress thread is
/// running and whether the demo load wave is active.
#[derive(PartialEq, Eq, Structural, Clone, Copy, Debug)]
pub enum StressAction {
    /// Stop the stress thread (and keep showing the demo wave).
    StopThread,
    /// Switch the demo wave off.
    DisableWave,
    /// Start a stress thread.
    StartThread,
}

pub open spec fn spec_stress_toggle(thread_running: bool, wave_active: bool) -> StressAction {
    if thread_running {
        StressAction::StopThread
    } else if wave_active {
        StressAction::DisableWave
    } else {
        StressAction::StartThread
    }
}

/// Decide the stress-test toggle; see [`spec_stress_toggle`].
pub fn stress_toggle_action(thread_running: bool, wave_active: bool) -> (a: StressAction)
    ensures
        a == spec_stress_toggle(thread_running, wave_active),
{
    if thread_running {
        StressAction::StopThread
    } else if wave_active {
        StressAction::DisableWave
    } else {
        StressAction::StartThread
    }
}

/// The commands a key press can carry.
#[derive(PartialEq, Eq, Structural, Clone, Copy, Debug)]
pub enum KeyCommand {
    TogglePause,
    ToggleHelp,
    ToggleStress,
    NoOp,
}

pub open spec fn spec_key_command(c: char) -> KeyCommand {
    if c == 'p' {
        KeyCommand::TogglePause
    } else if c == 'h' {
        KeyCommand::ToggleHelp
    } else if c == 's' {
        KeyCommand::ToggleStress
    } else {
        KeyCommand::NoOp
    }
}

/// Dispatch a typed character; see [`spec_key_command`].
pub fn key_command(c: char) -> (k: KeyCommand)
    ensures
        k == spec_key_command(c),
{
    if c == 'p' {
        KeyCommand::TogglePause
    } else if c == 'h' {
        KeyCommand::ToggleHelp
    } else if c == 's' {
        KeyCommand::ToggleStress
    } else {
        KeyCommand::NoOp
    }
}

/// One step of the demo load wave (all in centi-percent): advance by half a
/// percent in the current direction, reversing at `95%` and `20%`.
pub open spec fn spec_sim_wave_step(value: int, direction: int) -> (int, int) {
    let v = value + direction * 50;
    if v > 9_500 {
        (9_500int, -1int)
    } else if v < 2_000 {
        (2_000int, 1int)
    } else {
        (v, direction)
    }
}

/// Advance the demo load wave; see [`spec_sim_wave_step`].
pub fn sim_wave_step(value: i64, direction: i64) -> (r: (i64, i64))
    requires
        -100_000 <= value <= 100_000,
        direction == 1 || direction == -1,
    ensures
        (r.0 as int, r.1 as int) == spec_sim_wave_step(value as int, direction as int),
        2_000 <= r.0 <= 9_500,
        r.1 == 1 || r.1 == -1,
{
    let v = value + direction * 50;
    if v > 9_500 {
        (9_500, -1)
    } else if v < 2_000 {
        (2_000, 1)
    } else {
        (v, direction)
    }
}

/// Sum of a sequence of load samples.
pub open spec fn spec_load_sum(s: Seq<i64>) -> int
    decreases s.len(),
{
    if s.len() == 0 {
        0
    } else {
        spec_load_sum(s.drop_last()) + s.last()
    }
}

/// What [`aggregate_load`] returns: the mean of the per-core loads, zero
/// when there are none.
pub open spec fn spec_aggregate_load(s: Seq<i64>) -> int {
    if s.len() == 0 {
        0
    } else {
        spec_load_sum(s) / s.len() as int
    }
}

/// Average the per-core loads (centi-percent) into the aggregate load.
pub fn aggregate_load(core_usage: &Vec<i64>) -> (avg: i64)
    requires
        core_usage@.len() <= 1_000_000,
        forall|i: int| 0 <= i < core_usage@.len() ==> 0 <= #[trigger] core_usage@[i] <= 10_000,
    ensures
        avg == spec_aggregate_load(core_usage@),
        0 <= avg <= 10_000,
{
    let n = core_usage.len();
    if n == 0 {
        return 0;
    }
    let mut sum: i64 = 0;
    let mut i: usize = 0;
    while i < n
        invariant
            i <= n == core_usage@.len() <= 1_000_000,
            forall|k: int| 0 <= k < core_usage@.len() ==> 0 <= #[trigger] core_usage@[k] <= 10_000,
            sum == spec_load_sum(core_usage@.subrange(0, i as int)),
            0 <= sum <= 10_000 * i,
        decreases n - i,
    {
        assert(core_usage@.subrange(0, i + 1 as int).drop_last() == core_usage@.subrange(
            0,
            i as int,
        ));
        sum = sum + core_usage[i];
        i = i + 1;
    }
    assert(core_usage@.subrange(0, n as int) == core_usage@);
    let avg = sum / (n as i64);
    assert(0 <= avg <= 10_000) by (nonlinear_arith)
        requires
            0 <= sum <= 10_000 * n,
            1 <= n,
            avg == sum as int / (n as int),
    ;
    avg
}

/// The CPU temperature readout derived from the aggregate load:
/// `40 + 60 * load` degrees, in centi-degrees.
pub fn derived_cpu_temp(cpu_usage: i64) -> (t: i64)
    ensures
        t == 4_000 + spec_clamp(cpu_usage as int, 0, 10_000) * 6 / 10,
        4_000 <= t <= 10_000,
{
    let u = clamp(cpu_usage, 0, 10_000);
    4_000 + u * 6 / 10
}

/// Memory use as centi-percent of the total, clamped; zero when the total
/// is zero.
pub open spec fn spec_memory_percent(used: u64, total: u64) -> int {
    if total == 0 {
        0
    } else {
        spec_clamp(used * 10_000 / total as int, 0, 10_000)
    }
}

/// Memory use as centi-percent; see [`spec_memory_percent`].
pub fn memory_percent(used: u64, total: u64) -> (p: i64)
    ensures
        p == spec_memory_percent(used, total),
        0 <= p <= 10_000,
{
    if total == 0 {
        return 0;
    }
    let q = (used as u128) * 10_000 / (total as u128);
    if q > 10_000 {
        10_000
    } else {
        q as i64
    }
}

/// The load of one core, falling back to the aggregate when the index is out
/// of range.
pub fn get_core_usage(core_usage: &Vec<i64>, aggregate: i64, core_index: usize) -> (r: i64)
    ensures
        r == (if core_index < core_usage@.len() {
            core_usage@[core_index as int]
        } else {
            aggregate
        }),
{
    if core_index < core_usage.len() {
        core_usage[core_index]
    } else {
        aggregate
    }
}

} // verus!
