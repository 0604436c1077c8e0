//! The session driver: the state machine that starts a session, hands out
//! one cycle at a time, changes stance between cycles and stops on abort.

use vstd::prelude::*;

use crate::config::{Config, Stance};
use crate::cycle::{CycleRequest, CycleResult};
use crate::signal::{SignalRegister, TimerSignal};

verus! {

/// Why a session could not be started.
#[derive(Debug, Clone, Copy, PartialEq, Eq, Structural)]
pub enum TimerError {
    /// One of the configured durations is zero.
    ConfigInvalid,
}

/// Where the driver stands.
#[derive(Debug, Clone, Copy, PartialEq, Eq, Structural)]
pub enum DriverState {
    /// No session has run yet.
    Idle,
    /// A session runs, and exactly one cycle of it is under way.
    Running,
    /// The last session was aborted.
    Stopped,
}

/// What the driver reports to whoever presents the session.
#[derive(Debug, Clone, Copy, PartialEq, Eq, Structural)]
pub enum SessionEvent {
    /// The current stance is now the one given.
    StanceChanged(Stance),
    /// A cycle has ended in the way given.
    CycleFinished(CycleResult),
    /// The session has ended.
    SessionStopped,
}

/// What one step of the driver asks of its caller: the events to pass on,
/// in order, and the cycle to run next, if there is one.
#[derive(Debug, Clone, PartialEq, Eq)]
pub struct Transition {
    pub events: Vec<SessionEvent>,
    pub next_cycle: Option<CycleRequest>,
}

/// The driver as a mathematical value.
pub struct DriverModel {
    pub state: DriverState,
    /// What the running session, or else the last one, was started with.
    pub config: Config,
    pub current_stance: Stance,
    pub signal: TimerSignal,
}

/// The event that reports a change of stance from `before` to `after`, or
/// nothing where the two are the same.
pub open spec fn stance_events(before: Stance, after: Stance) -> Seq<SessionEvent> {
    if before == after {
        Seq::empty()
    } else {
        seq![SessionEvent::StanceChanged(after)]
    }
}

impl DriverModel {
    /// The driver before its first session.
    pub open spec fn idle() -> DriverModel {
        DriverModel {
            state: DriverState::Idle,
            config: Config::initial(),
            current_stance: Stance::Sitting,
            signal: TimerSignal::Run,
        }
    }

    /// Whether a session is running.
    pub open spec fn running(self) -> bool {
        self.state == DriverState::Running
    }

    /// A running session was started with a valid configuration.
    pub open spec fn wf(self) -> bool {
        self.running() ==> self.config.valid()
    }

    /// The number of cycles under way: one while a session runs, else none.
    pub open spec fn cycles_in_flight(self) -> nat {
        if self.running() {
            1
        } else {
            0
        }
    }

    /// The request for a cycle in the current stance.
    pub open spec fn request(self, is_initial: bool) -> CycleRequest {
        CycleRequest {
            stance: self.current_stance,
            duration: self.config.minutes_for(self.current_stance),
            is_initial,
            toast_duration: self.config.toast_duration,
        }
    }

    /// While no session runs, the stance on show follows the one chosen for
    /// the next session; a running session is left alone.
    pub open spec fn show_start_stance(self, stance: Stance) -> DriverModel {
        if self.running() {
            self
        } else {
            DriverModel { current_stance: stance, ..self }
        }
    }

    /// Whether `start` begins a session: the driver is not running one, and
    /// the configuration is valid.
    pub open spec fn can_start(self, config: Config) -> bool {
        !self.running() && config.valid()
    }

    /// Starting a session takes the configuration over, takes its start
    /// stance, clears the signal register and runs. Where no session can
    /// start nothing changes.
    pub open spec fn start(self, config: Config) -> DriverModel {
        if self.can_start(config) {
            DriverModel {
                state: DriverState::Running,
                config,
                current_stance: config.start_stance,
                signal: TimerSignal::Run,
            }
        } else {
            self
        }
    }

    /// The events of a start.
    pub open spec fn start_events(self, config: Config) -> Seq<SessionEvent> {
        if self.can_start(config) {
            stance_events(self.current_stance, config.start_stance)
        } else {
            Seq::empty()
        }
    }

    /// The state after the cycle under way has ended with `result`. A
    /// completed or skipped cycle changes the stance, and a skip is cleared
    /// from the signal register; an aborted one stops the session in its
    /// start stance. With no session running the result is stale and nothing
    /// changes.
    pub open spec fn cycle_finished(self, result: CycleResult) -> DriverModel {
        if !self.running() {
            self
        } else {
            match result {
                CycleResult::Completed => DriverModel {
                    current_stance: self.current_stance.toggled(),
                    ..self
                },
                CycleResult::Skipped => DriverModel {
                    current_stance: self.current_stance.toggled(),
                    signal: TimerSignal::Run,
                    ..self
                },
                CycleResult::Aborted => DriverModel {
                    state: DriverState::Stopped,
                    current_stance: self.config.start_stance,
                    ..self
                },
            }
        }
    }

    /// The events of the end of a cycle.
    pub open spec fn cycle_events(self, result: CycleResult) -> Seq<SessionEvent> {
        if !self.running() {
            Seq::empty()
        } else if result == CycleResult::Aborted {
            seq![SessionEvent::CycleFinished(result)] + stance_events(
                self.current_stance,
                self.config.start_stance,
            ) + seq![SessionEvent::SessionStopped]
        } else {
            seq![
                SessionEvent::CycleFinished(result),
                SessionEvent::StanceChanged(self.current_stance.toggled()),
            ]
        }
    }

    /// The cycle that follows the one that ended with `result`: none after an
    /// abort or a stale result.
    pub open spec fn next_cycle(self, result: CycleResult) -> Option<CycleRequest> {
        if self.running() && result != CycleResult::Aborted {
            Some(self.cycle_finished(result).request(false))
        } else {
            None
        }
    }

    /// A request to abort reaches the signal register of a running session
    /// only.
    pub open spec fn request_abort(self) -> DriverModel {
        if self.running() {
            DriverModel { signal: TimerSignal::Abort, ..self }
        } else {
            self
        }
    }

    /// A request to skip reaches the signal register of a running session
    /// only.
    pub open spec fn request_skip(self) -> DriverModel {
        if self.running() {
            DriverModel { signal: TimerSignal::Skip, ..self }
        } else {
            self
        }
    }
}

/// One thing that can happen to a driver.
pub enum DriverInput {
    /// The user chose the stance for the next session.
    ShowStartStance(Stance),
    /// The user asked for a session with the configuration given.
    Start(Config),
    /// A cycle reported how it ended.
    CycleFinished(CycleResult),
    /// The user asked the session to stop.
    RequestAbort,
    /// The user asked the cycle to end early.
    RequestSkip,
}

/// Whether every one of `results` is `Completed` or `Skipped`.
pub open spec fn none_aborted(results: Seq<CycleResult>) -> bool {
    forall|i: int| 0 <= i < results.len() ==> results[i] != CycleResult::Aborted
}

impl DriverModel {
    /// The state after the cycles of a session have ended with `results`,
    /// one after the other.
    pub open spec fn after_cycles(self, results: Seq<CycleResult>) -> DriverModel
        decreases results.len(),
    {
        if results.len() == 0 {
            self
        } else {
            self.after_cycles(results.drop_last()).cycle_finished(results.last())
        }
    }

    /// The state after `input`. A start that cannot begin a session is
    /// ignored.
    pub open spec fn apply(self, input: DriverInput) -> DriverModel {
        match input {
            DriverInput::ShowStartStance(stance) => self.show_start_stance(stance),
            DriverInput::Start(config) => self.start(config),
            DriverInput::CycleFinished(result) => self.cycle_finished(result),
            DriverInput::RequestAbort => self.request_abort(),
            DriverInput::RequestSkip => self.request_skip(),
        }
    }

    /// Whether the driver answers `input` with a cycle to run.
    pub open spec fn hands_out_cycle(self, input: DriverInput) -> bool {
        match input {
            DriverInput::Start(config) => self.can_start(config),
            DriverInput::CycleFinished(result) => self.next_cycle(result) is Some,
            _ => false,
        }
    }

    /// Whether `input` is the result of the cycle under way.
    pub open spec fn takes_result(self, input: DriverInput) -> bool {
        input is CycleFinished && self.running()
    }

    /// The state after `inputs`, one after the other.
    pub open spec fn apply_all(self, inputs: Seq<DriverInput>) -> DriverModel
        decreases inputs.len(),
    {
        if inputs.len() == 0 {
            self
        } else {
            self.apply_all(inputs.drop_last()).apply(inputs.last())
        }
    }

    /// How many cycles the driver hands out along `inputs`.
    pub open spec fn cycles_handed_out(self, inputs: Seq<DriverInput>) -> nat
        decreases inputs.len(),
    {
        if inputs.len() == 0 {
            0
        } else {
            let earlier = inputs.drop_last();
            let handed: nat = if self.apply_all(earlier).hands_out_cycle(inputs.last()) {
                1
            } else {
                0
            };
            self.cycles_handed_out(earlier) + handed
        }
    }

    /// How many results of cycles under way the driver takes along `inputs`.
    pub open spec fn results_taken(self, inputs: Seq<DriverInput>) -> nat
        decreases inputs.len(),
    {
        if inputs.len() == 0 {
            0
        } else {
            let earlier = inputs.drop_last();
            let taken: nat = if self.apply_all(earlier).takes_result(inputs.last()) {
                1
            } else {
                0
            };
            self.results_taken(earlier) + taken
        }
    }
}

/// Starts sessions, hands out their cycles one at a time and reacts to how
/// each one ends. It owns the signal register.
#[derive(Debug)]
pub struct SessionDriver {
    state: DriverState,
    config: Config,
    current_stance: Stance,
    register: SignalRegister,
}

impl View for SessionDriver {
    type V = DriverModel;

    closed spec fn view(&self) -> DriverModel {
        DriverModel {
            state: self.state,
            config: self.config,
            current_stance: self.current_stance,
            signal: self.register@,
        }
    }
}

impl SessionDriver {
    #[verifier::type_invariant]
    spec fn well_formed(self) -> bool {
        self@.wf()
    }

    /// A driver that has not run a session yet.
    pub fn new() -> (driver: SessionDriver)
        ensures
            driver@ == DriverModel::idle(),
    {
        SessionDriver {
            state: DriverState::Idle,
            config: Config::default(),
            current_stance: Stance::Sitting,
            register: SignalRegister::new(),
        }
    }

    /// Where the driver stands.
    pub fn state(&self) -> (state: DriverState)
        ensures
            state == self@.state,
            self@.wf(),
    {
        proof {
            use_type_invariant(self);
        }
        self.state
    }

    /// Whether a session is running.
    pub fn is_running(&self) -> (running: bool)
        ensures
            running == self@.running(),
    {
        self.state == DriverState::Running
    }

    /// The stance on show.
    pub fn current_stance(&self) -> (stance: Stance)
        ensures
            stance == self@.current_stance,
    {
        self.current_stance
    }

    /// What the signal register reads. This is what the waiters of the cycle
    /// under way look at.
    pub fn signal(&self) -> (signal: TimerSignal)
        ensures
            signal == self@.signal,
    {
        self.register.get()
    }

    /// Shows `stance` as the one a session would start in, unless a session
    /// is running.
    pub fn show_start_stance(&mut self, stance: Stance)
        ensures
            final(self)@ == old(self)@.show_start_stance(stance),
    {
        proof {
            use_type_invariant(&*self);
        }
        if self.state != DriverState::Running {
            self.current_stance = stance;
        }
    }

    /// Starts a session with `config`, from a driver that runs none. A
    /// configuration with a zero duration is refused and leaves the driver
    /// untouched. Otherwise the session runs, and the transition holds its
    /// first cycle.
    pub fn start(&mut self, config: &Config) -> (started: Result<Transition, TimerError>)
        requires
            !old(self)@.running(),
        ensures
            final(self)@ == old(self)@.start(*config),
            final(self)@.wf(),
            config.valid() <==> started is Ok,
            started matches Err(error) ==> error == TimerError::ConfigInvalid && final(self)@ == old(
                self,
            )@,
            started matches Ok(transition) ==> {
                &&& transition.events@ == old(self)@.start_events(*config)
                &&& transition.next_cycle == Some(final(self)@.request(true))
            },
    {
        if !config.is_valid() {
            return Err(TimerError::ConfigInvalid);
        }
        let mut events: Vec<SessionEvent> = Vec::new();
        if self.current_stance != config.start_stance {
            events.push(SessionEvent::StanceChanged(config.start_stance));
        }
        self.config = *config;
        self.current_stance = config.start_stance;
        self.register.reset();
        self.state = DriverState::Running;
        let request = self.request(true);
        Ok(Transition { events, next_cycle: Some(request) })
    }

    /// Takes the result of the cycle under way and says what follows.
    pub fn cycle_finished(&mut self, result: CycleResult) -> (transition: Transition)
        ensures
            final(self)@ == old(self)@.cycle_finished(result),
            final(self)@.wf(),
            transition.events@ == old(self)@.cycle_events(result),
            transition.next_cycle == old(self)@.next_cycle(result),
            old(self)@.running() && result == CycleResult::Skipped ==> final(self)@.signal
                == TimerSignal::Run,
    {
        proof {
            use_type_invariant(&*self);
        }
        let mut events: Vec<SessionEvent> = Vec::new();
        if self.state != DriverState::Running {
            return Transition { events, next_cycle: None };
        }
        events.push(SessionEvent::CycleFinished(result));
        match result {
            CycleResult::Aborted => {
                if self.current_stance != self.config.start_stance {
                    events.push(SessionEvent::StanceChanged(self.config.start_stance));
                }
                events.push(SessionEvent::SessionStopped);
                self.current_stance = self.config.start_stance;
                self.state = DriverState::Stopped;
                Transition { events, next_cycle: None }
            },
            CycleResult::Completed | CycleResult::Skipped => {
                if result == CycleResult::Skipped {
                    self.register.reset();
                }
                self.current_stance = self.current_stance.toggle();
                events.push(SessionEvent::StanceChanged(self.current_stance));
                let request = self.request(false);
                Transition { events, next_cycle: Some(request) }
            },
        }
    }

    /// Asks the running session to stop. Without one nothing happens.
    pub fn request_abort(&mut self)
        ensures
            final(self)@ == old(self)@.request_abort(),
    {
        proof {
            use_type_invariant(&*self);
        }
        if self.state == DriverState::Running {
            self.register.set(TimerSignal::Abort);
        }
    }

    /// Asks the running session to end its cycle early. Without one nothing
    /// happens.
    pub fn request_skip(&mut self)
        ensures
            final(self)@ == old(self)@.request_skip(),
    {
        proof {
            use_type_invariant(&*self);
        }
        if self.state == DriverState::Running {
            self.register.set(TimerSignal::Skip);
        }
    }

    fn request(&self, is_initial: bool) -> (request: CycleRequest)
        ensures
            request == self@.request(is_initial),
    {
        CycleRequest {
            stance: self.current_stance,
            duration: self.config.duration_for(self.current_stance),
            is_initial,
            toast_duration: self.config.toast_duration,
        }
    }
}

/// Starts a session on a driver of its own: sitting for `sit_time` minutes
/// and standing for `stand_time`, beginning in `start_stance`, with
/// notifications shown for `toast_duration` seconds. Returns the driver and
/// the first cycle to run, or refuses a zero duration.
pub fn start_timer(sit_time: u32, stand_time: u32, start_stance: Stance, toast_duration: u32) -> (started:
    Result<(SessionDriver, CycleRequest), TimerError>)
    ensures
        (Config { sit_time, stand_time, start_stance, toast_duration }).valid() <==> started is Ok,
        started matches Err(error) ==> error == TimerError::ConfigInvalid,
        started matches Ok((driver, first)) ==> {
            let config = Config { sit_time, stand_time, start_stance, toast_duration };
            &&& driver@ == DriverModel::idle().start(config)
            &&& driver@.wf()
            &&& first == driver@.request(true)
        },
{
    let config = Config { sit_time, stand_time, start_stance, toast_duration };
    let mut driver = SessionDriver::new();
    match driver.start(&config) {
        Err(error) => Err(error),
        Ok(transition) => Ok((driver, transition.next_cycle.unwrap())),
    }
}

} // verus!
