//! Decisions of the graceful/forced shutdown supervisor.
//!
//! The first SIGINT or SIGTERM begins a graceful drain. While draining, a
//! second signal, the grace deadline, or (on an interactive terminal after a
//! SIGINT) end-of-input on stdin forces the shutdown; the server finishing on
//! its own completes it. Forcing and Complete are final.
use vstd::prelude::*;

use crate::text::parse_unsigned;

verus! {

/// Grace period used when `SHUTDOWN_GRACE_MS` is unset or invalid.
pub const DEFAULT_SHUTDOWN_GRACE_MS: u64 = 10000;

/// Time allowed for connections to close after a forced shutdown.
pub const FORCE_SETTLE_TIMEOUT_MS: u64 = 2000;

#[derive(Clone, Copy, Debug, PartialEq, Eq, Structural)]
pub enum Phase {
    Running,
    Draining,
    Forcing,
    Complete,
}

impl Phase {
    pub fn as_str(self) -> (s: &'static str)
        ensures
            s@ == phase_name(self),
    {
        match self {
            Phase::Running => "running",
            Phase::Draining => "draining",
            Phase::Forcing => "forcing",
            Phase::Complete => "complete",
        }
    }
}

/// The name under which a phase is logged.
pub open spec fn phase_name(p: Phase) -> Seq<char> {
    match p {
        Phase::Running => "running"@,
        Phase::Draining => "draining"@,
        Phase::Forcing => "forcing"@,
        Phase::Complete => "complete"@,
    }
}

#[derive(Clone, Copy, Debug, PartialEq, Eq, Structural)]
pub enum Trigger {
    Sigint,
    Sigterm,
    StdinEof,
    Timeout,
    GracefulComplete,
}

/// Whether a trigger is an operating-system signal.
pub open spec fn is_signal(t: Trigger) -> bool {
    t == Trigger::Sigint || t == Trigger::Sigterm
}

/// The name under which a trigger is logged.
pub open spec fn trigger_name(t: Trigger) -> Seq<char> {
    match t {
        Trigger::Sigint => "sigint"@,
        Trigger::Sigterm => "sigterm"@,
        Trigger::StdinEof => "stdin_eof"@,
        Trigger::Timeout => "timeout"@,
        Trigger::GracefulComplete => "graceful_complete"@,
    }
}

impl Trigger {
    pub fn as_str(self) -> (s: &'static str)
        ensures
            s@ == trigger_name(self),
    {
        match self {
            Trigger::Sigint => "sigint",
            Trigger::Sigterm => "sigterm",
            Trigger::StdinEof => "stdin_eof",
            Trigger::Timeout => "timeout",
            Trigger::GracefulComplete => "graceful_complete",
        }
    }

    pub fn is_signal(self) -> (b: bool)
        ensures
            b == is_signal(self),
    {
        match self {
            Trigger::Sigint | Trigger::Sigterm => true,
            _ => false,
        }
    }
}

#[derive(Clone, Copy, Debug, PartialEq, Eq, Structural)]
pub enum Action {
    Ignore,
    BeginGraceful,
    Force,
    Complete,
}

#[derive(Clone, Copy, Debug, PartialEq, Eq, Structural)]
pub struct State {
    pub phase: Phase,
    pub stdin_is_tty: bool,
    pub first_trigger: Option<Trigger>,
}

#[derive(Clone, Copy, Debug, PartialEq, Eq, Structural)]
pub struct Transition {
    pub state: State,
    pub action: Action,
    pub show_force_hint: bool,
}

/// A transition that leaves the state as it is and does nothing.
pub open spec fn ignored(s: State) -> Transition {
    Transition { state: s, action: Action::Ignore, show_force_hint: false }
}

/// `s` moved to phase `p`, everything else kept.
pub open spec fn in_phase(s: State, p: Phase) -> State {
    State { phase: p, ..s }
}

/// The shutdown state machine.
///
/// * Running: a signal begins the graceful drain and is recorded as the first
///   trigger; the force hint is shown for a SIGINT on an interactive terminal.
///   Anything else is ignored.
/// * Draining: completion of the server completes the shutdown; a signal or
///   the deadline forces it; end of input forces it only on an interactive
///   terminal whose first trigger was SIGINT. Anything else is ignored.
/// * Forcing, Complete: every trigger is ignored.
pub open spec fn step(s: State, t: Trigger) -> Transition {
    match s.phase {
        Phase::Running => if is_signal(t) {
            Transition {
                state: State { phase: Phase::Draining, first_trigger: Some(t), ..s },
                action: Action::BeginGraceful,
                show_force_hint: s.stdin_is_tty && t == Trigger::Sigint,
            }
        } else {
            ignored(s)
        },
        Phase::Draining => if t == Trigger::GracefulComplete {
            Transition {
                state: in_phase(s, Phase::Complete),
                action: Action::Complete,
                show_force_hint: false,
            }
        } else if is_signal(t) || t == Trigger::Timeout || (t == Trigger::StdinEof
            && s.stdin_is_tty && s.first_trigger == Some(Trigger::Sigint)) {
            Transition { state: in_phase(s, Phase::Forcing), action: Action::Force, show_force_hint: false }
        } else {
            ignored(s)
        },
        Phase::Forcing | Phase::Complete => ignored(s),
    }
}

/// The states the machine can be in: the first trigger is recorded exactly
/// when the machine has left Running, and it is always a signal.
pub open spec fn well_formed(s: State) -> bool {
    &&& (s.phase == Phase::Running <==> s.first_trigger is None)
    &&& (s.first_trigger matches Some(t) ==> is_signal(t))
}

impl Transition {
    pub fn ignored(state: State) -> (t: Transition)
        ensures
            t == ignored(state),
    {
        Transition { state, action: Action::Ignore, show_force_hint: false }
    }
}

impl State {
    pub fn new(stdin_is_tty: bool) -> (s: State)
        ensures
            s == (State { phase: Phase::Running, stdin_is_tty, first_trigger: None }),
    {
        State { phase: Phase::Running, stdin_is_tty, first_trigger: None }
    }

    pub fn apply(self, trigger: Trigger) -> (t: Transition)
        ensures
            t == step(self, trigger),
    {
        match self.phase {
            Phase::Running => match trigger {
                Trigger::Sigint | Trigger::Sigterm => Transition {
                    state: State {
                        phase: Phase::Draining,
                        first_trigger: Some(trigger),
                        ..self
                    },
                    action: Action::BeginGraceful,
                    show_force_hint: self.stdin_is_tty && matches!(trigger, Trigger::Sigint),
                },
                _ => Transition::ignored(self),
            },
            Phase::Draining => match trigger {
                Trigger::GracefulComplete => Transition {
                    state: State { phase: Phase::Complete, ..self },
                    action: Action::Complete,
                    show_force_hint: false,
                },
                Trigger::Sigint | Trigger::Sigterm | Trigger::Timeout => Transition {
                    state: State { phase: Phase::Forcing, ..self },
                    action: Action::Force,
                    show_force_hint: false,
                },
                Trigger::StdinEof => {
                    let after_sigint = match self.first_trigger {
                        Some(Trigger::Sigint) => true,
                        _ => false,
                    };
                    if self.stdin_is_tty && after_sigint {
                        Transition {
                            state: State { phase: Phase::Forcing, ..self },
                            action: Action::Force,
                            show_force_hint: false,
                        }
                    } else {
                        Transition::ignored(self)
                    }
                },
            },
            Phase::Forcing | Phase::Complete => Transition::ignored(self),
        }
    }
}

/// The machine starts well formed.
pub proof fn lemma_initial_state_well_formed(stdin_is_tty: bool)
    ensures
        well_formed(State::new_spec(stdin_is_tty)),
{
}

/// Every transition keeps the machine well formed.
pub proof fn lemma_step_keeps_well_formed(s: State, t: Trigger)
    requires
        well_formed(s),
    ensures
        well_formed(step(s, t).state),
{
}

/// Whether the terminal is interactive never changes.
pub proof fn lemma_step_keeps_terminal_flag(s: State, t: Trigger)
    ensures
        step(s, t).state.stdin_is_tty == s.stdin_is_tty,
{
}

/// Once recorded, the first trigger is never replaced.
pub proof fn lemma_first_trigger_is_kept(s: State, t: Trigger)
    requires
        well_formed(s),
        s.first_trigger is Some,
    ensures
        step(s, t).state.first_trigger == s.first_trigger,
{
}

/// Forcing and Complete are final: every trigger is ignored there.
pub proof fn lemma_final_phases_ignore_everything(s: State, t: Trigger)
    requires
        s.phase == Phase::Forcing || s.phase == Phase::Complete,
    ensures
        step(s, t) == ignored(s),
{
}

/// A running server begins a graceful drain on a signal and on nothing else;
/// the force hint is offered exactly for a SIGINT on an interactive terminal.
pub proof fn lemma_only_signals_begin_shutdown(s: State, t: Trigger)
    requires
        s.phase == Phase::Running,
    ensures
        (step(s, t).action == Action::BeginGraceful) == is_signal(t),
        !is_signal(t) ==> step(s, t) == ignored(s),
        step(s, t).show_force_hint == (s.stdin_is_tty && t == Trigger::Sigint),
{
}

/// While draining, any further signal and the deadline force the shutdown.
pub proof fn lemma_second_signal_or_deadline_forces(s: State, t: Trigger)
    requires
        s.phase == Phase::Draining,
        is_signal(t) || t == Trigger::Timeout,
    ensures
        step(s, t).action == Action::Force,
        step(s, t).state.phase == Phase::Forcing,
{
}

/// End of input forces a draining shutdown exactly when the terminal is
/// interactive and the drain began with SIGINT; before any signal it is
/// ignored.
pub proof fn lemma_eof_forces_only_after_interactive_sigint(s: State)
    ensures
        s.phase == Phase::Running ==> step(s, Trigger::StdinEof) == ignored(s),
        s.phase == Phase::Draining ==> ((step(s, Trigger::StdinEof).action == Action::Force) == (
        s.stdin_is_tty && s.first_trigger == Some(Trigger::Sigint))),
{
}

/// Only a draining server that finishes reaches Complete through a transition.
pub proof fn lemma_complete_only_after_drain(s: State, t: Trigger)
    requires
        s.phase != Phase::Complete,
        step(s, t).state.phase == Phase::Complete,
    ensures
        s.phase == Phase::Draining,
        t == Trigger::GracefulComplete,
        step(s, t).action == Action::Complete,
{
}

impl State {
    pub open spec fn new_spec(stdin_is_tty: bool) -> State {
        State { phase: Phase::Running, stdin_is_tty, first_trigger: None }
    }
}

/// How a supervised shutdown ended.
#[derive(Clone, Copy, Debug, PartialEq, Eq, Structural)]
pub struct Outcome {
    pub forced: bool,
    pub trigger: Trigger,
}

/// A transition the supervisor does not accept.
#[derive(Clone, Copy, Debug, PartialEq, Eq, Structural)]
pub enum ShutdownError {
    /// The first trigger did not begin a graceful shutdown.
    InvalidFirstTrigger(Trigger),
    /// A trigger during the drain did not force the shutdown.
    InvalidTransition(Phase, Trigger),
}

/// The supervisor's state once a graceful drain has begun.
#[derive(Clone, Copy, Debug, PartialEq, Eq, Structural)]
pub struct Draining {
    pub state: State,
    pub first_trigger: Trigger,
    pub signal_count: u32,
    pub show_force_hint: bool,
}

/// The server finished before any trigger arrived: the shutdown is
/// complete, unforced, and reported under `GracefulComplete`.
pub fn server_completed_first() -> (r: Outcome)
    ensures
        r == (Outcome { forced: false, trigger: Trigger::GracefulComplete }),
{
    Outcome { forced: false, trigger: Trigger::GracefulComplete }
}

/// The first trigger seen by the supervisor must begin the graceful drain.
pub fn begin_shutdown(stdin_is_tty: bool, first_trigger: Trigger) -> (r: Result<Draining, ShutdownError>)
    ensures
        match r {
            Ok(d) => {
                &&& is_signal(first_trigger)
                &&& d.state == step(State::new_spec(stdin_is_tty), first_trigger).state
                &&& d.first_trigger == first_trigger
                &&& d.signal_count == 1
                &&& d.show_force_hint == (stdin_is_tty && first_trigger == Trigger::Sigint)
            },
            Err(e) => !is_signal(first_trigger) && e == ShutdownError::InvalidFirstTrigger(
                first_trigger,
            ),
        },
{
    let first = State::new(stdin_is_tty).apply(first_trigger);
    match first.action {
        Action::BeginGraceful => {
            let signal_count: u32 = if first_trigger.is_signal() {
                1
            } else {
                0
            };
            Ok(
                Draining {
                    state: first.state,
                    first_trigger,
                    signal_count,
                    show_force_hint: first.show_force_hint,
                },
            )
        },
        _ => Err(ShutdownError::InvalidFirstTrigger(first_trigger)),
    }
}

/// The drain ended because the server finished: the shutdown completes
/// without force, reported under the first trigger.
pub fn finish_drain(draining: Draining) -> (r: (State, Outcome))
    ensures
        r.0 == step(draining.state, Trigger::GracefulComplete).state,
        r.1 == (Outcome { forced: false, trigger: draining.first_trigger }),
{
    let t = draining.state.apply(Trigger::GracefulComplete);
    (t.state, Outcome { forced: false, trigger: draining.first_trigger })
}

/// A trigger arrived during the drain; it must force the shutdown. A signal
/// adds one to the signal count, which saturates.
pub fn force_shutdown(draining: Draining, trigger: Trigger) -> (r: Result<
    (State, u32, Outcome),
    ShutdownError,
>)
    ensures
        match r {
            Ok((state, count, outcome)) => {
                &&& step(draining.state, trigger).action == Action::Force
                &&& state == step(draining.state, trigger).state
                &&& count == if is_signal(trigger) {
                    if draining.signal_count == u32::MAX {
                        u32::MAX as int
                    } else {
                        draining.signal_count + 1
                    }
                } else {
                    draining.signal_count as int
                }
                &&& outcome == (Outcome { forced: true, trigger })
            },
            Err(e) => step(draining.state, trigger).action != Action::Force && e
                == ShutdownError::InvalidTransition(draining.state.phase, trigger),
        },
{
    let count = if trigger.is_signal() {
        draining.signal_count.saturating_add(1)
    } else {
        draining.signal_count
    };
    let forced = draining.state.apply(trigger);
    match forced.action {
        Action::Force => Ok((forced.state, count, Outcome { forced: true, trigger })),
        _ => Err(ShutdownError::InvalidTransition(draining.state.phase, trigger)),
    }
}

/// The grace period in milliseconds: a positive integer given in
/// `SHUTDOWN_GRACE_MS`, otherwise the default.
pub open spec fn grace_ms_spec(raw: Option<Seq<char>>) -> u64 {
    match raw {
        Some(s) => match crate::text::parsed_unsigned(s, u64::MAX as int) {
            Some(v) => if v > 0 {
                v as u64
            } else {
                DEFAULT_SHUTDOWN_GRACE_MS
            },
            None => DEFAULT_SHUTDOWN_GRACE_MS,
        },
        None => DEFAULT_SHUTDOWN_GRACE_MS,
    }
}

/// Supervisor settings.
#[derive(Clone, Copy, Debug, PartialEq, Eq, Structural)]
pub struct Config {
    pub grace_ms: u64,
    pub stdin_is_tty: bool,
}

impl Config {
    /// Settings from the raw value of `SHUTDOWN_GRACE_MS` (`None` when unset
    /// or not Unicode) and whether stdin is a terminal.
    pub fn from_values(raw_grace_ms: Option<&str>, stdin_is_tty: bool) -> (c: Config)
        ensures
            c.grace_ms == grace_ms_spec(
                match raw_grace_ms {
                    Some(s) => Some(s@),
                    None => None,
                },
            ),
            c.stdin_is_tty == stdin_is_tty,
    {
        let grace_ms = match raw_grace_ms {
            Some(raw) => match parse_unsigned(raw, u64::MAX) {
                Some(v) => if v > 0 {
                    v
                } else {
                    DEFAULT_SHUTDOWN_GRACE_MS
                },
                None => DEFAULT_SHUTDOWN_GRACE_MS,
            },
            None => DEFAULT_SHUTDOWN_GRACE_MS,
        };
        Config { grace_ms, stdin_is_tty }
    }
}

/// A length of time in whole milliseconds, saturated to `u64`.
pub open spec fn saturated_ms(ms: u128) -> u64 {
    if ms > u64::MAX as u128 {
        u64::MAX
    } else {
        ms as u64
    }
}

/// The grace period, given as whole milliseconds, for the shutdown log.
pub fn grace_ms(grace_period_ms: u128) -> (r: u64)
    ensures
        r == saturated_ms(grace_period_ms),
{
    if grace_period_ms > u64::MAX as u128 {
        u64::MAX
    } else {
        grace_period_ms as u64
    }
}

/// The time since the supervisor started, given as whole milliseconds,
/// for the shutdown log.
pub fn elapsed_ms(elapsed: u128) -> (r: u64)
    ensures
        r == saturated_ms(elapsed),
{
    if elapsed > u64::MAX as u128 {
        u64::MAX
    } else {
        elapsed as u64
    }
}

} // verus!
