//! The application behind the window: what it remembers, and what each
//! message from the window or from a finished task does to it.

use vstd::prelude::*;
use vstd::string::*;

use crate::config::{Config, ConfigFileError, Stance};
use crate::cycle::{CycleRequest, CycleResult};
use crate::number::{parse_u32, parsed_u32};
use crate::signal::TimerSignal;
use crate::timer::{DriverInput, DriverModel, SessionDriver, TimerError};

verus! {

/// What the window and the tasks behind it tell the application.
#[derive(Debug, PartialEq, Eq)]
pub enum Message {
    /// The configuration file was read, or could not be.
    ConfigFileLoaded(Result<Config, ConfigFileError>),
    /// The user wants the configuration saved.
    SaveConfigToFile,
    /// The configuration file was written, or could not be.
    ConfigSavedToFile(Result<(), ConfigFileError>),
    /// The user typed into the field for the minutes to sit.
    ConfigValueSitTimeChanged(String),
    /// The user typed into the field for the minutes to stand.
    ConfigValueStandTimeChanged(String),
    /// The user chose the stance to start in.
    ConfigValueStanceChanged(Stance),
    /// The user typed into the field for the seconds a notification shows.
    ConfigValueToastTimeChanged(String),
    /// The user pressed the button that starts the timer.
    StartTimer,
    /// The user pressed the button that stops the timer.
    StopTimer,
    /// A cycle has ended.
    TimerCycleFinished(CycleResult),
    /// The user wants to change stance now.
    SwitchStance,
}

impl Clone for Message {
    /// A copy that holds what `self` holds.
    fn clone(&self) -> (copy: Message)
        ensures
            copy == *self,
    {
        match self {
            Message::ConfigFileLoaded(loaded) => Message::ConfigFileLoaded(*loaded),
            Message::SaveConfigToFile => Message::SaveConfigToFile,
            Message::ConfigSavedToFile(saved) => Message::ConfigSavedToFile(*saved),
            Message::ConfigValueSitTimeChanged(text) => Message::ConfigValueSitTimeChanged(
                text.clone(),
            ),
            Message::ConfigValueStandTimeChanged(text) => Message::ConfigValueStandTimeChanged(
                text.clone(),
            ),
            Message::ConfigValueStanceChanged(stance) => Message::ConfigValueStanceChanged(*stance),
            Message::ConfigValueToastTimeChanged(text) => Message::ConfigValueToastTimeChanged(
                text.clone(),
            ),
            Message::StartTimer => Message::StartTimer,
            Message::StopTimer => Message::StopTimer,
            Message::TimerCycleFinished(result) => Message::TimerCycleFinished(*result),
            Message::SwitchStance => Message::SwitchStance,
        }
    }
}

/// What the application asks the program around it to do next.
#[derive(Debug, Clone, Copy, PartialEq, Eq, Structural)]
pub enum Command {
    /// Nothing.
    Nothing,
    /// Read the configuration file and answer with `ConfigFileLoaded`.
    LoadConfig,
    /// Write the configuration given and answer with `ConfigSavedToFile`.
    SaveConfig(Config),
    /// Run the cycle given and answer with `TimerCycleFinished`.
    RunCycle(CycleRequest),
    /// Tell the user that the timer did not start, and why.
    Refused(TimerError),
}

/// The application as a mathematical value.
pub struct AppModel {
    /// The configuration as the user has edited it.
    pub config: Config,
    /// Whether the configuration file holds what `config` holds.
    pub config_saved: bool,
    pub driver: DriverModel,
}

/// The line under the save button.
pub open spec fn save_state_label(config_saved: bool) -> Seq<char> {
    if config_saved {
        "Config saved"@
    } else {
        "Unsaved config"@
    }
}

/// The line that tells whether the timer runs.
pub open spec fn timer_state_label(running: bool) -> Seq<char> {
    if running {
        "Running ..."@
    } else {
        "Stopped"@
    }
}

/// What is written on the button that starts and stops the timer.
pub open spec fn timer_button_label(running: bool) -> Seq<char> {
    if running {
        "Stop Timer"@
    } else {
        "Start Timer"@
    }
}

impl AppModel {
    /// The application as it comes up.
    pub open spec fn initial() -> AppModel {
        AppModel { config: Config::initial(), config_saved: false, driver: DriverModel::idle() }
    }

    /// The application after the user has edited the configuration to
    /// `config`.
    pub open spec fn edited(self, config: Config) -> AppModel {
        AppModel { config, config_saved: false, ..self }
    }

    /// The application after the user typed `text` into a field for a number,
    /// where `with` puts a number into the configuration: a text that
    /// writes no number changes nothing.
    pub open spec fn typed(self, text: Seq<char>, with: spec_fn(Config, u32) -> Config)
        -> AppModel {
        match parsed_u32(text) {
            Some(number) => self.edited(with(self.config, number)),
            None => self,
        }
    }

    /// The application after `message`.
    pub open spec fn update(self, message: Message) -> AppModel {
        match message {
            Message::ConfigFileLoaded(Ok(config)) => AppModel {
                config,
                config_saved: true,
                driver: self.driver.show_start_stance(config.start_stance),
            },
            Message::ConfigFileLoaded(Err(_)) => self,
            Message::SaveConfigToFile => self,
            Message::ConfigSavedToFile(saved) => AppModel { config_saved: saved is Ok, ..self },
            Message::ConfigValueSitTimeChanged(text) => self.typed(
                text@,
                |config: Config, number: u32| Config { sit_time: number, ..config },
            ),
            Message::ConfigValueStandTimeChanged(text) => self.typed(
                text@,
                |config: Config, number: u32| Config { stand_time: number, ..config },
            ),
            Message::ConfigValueStanceChanged(stance) => AppModel {
                config: Config { start_stance: stance, ..self.config },
                config_saved: false,
                driver: self.driver.show_start_stance(stance),
            },
            Message::ConfigValueToastTimeChanged(text) => self.typed(
                text@,
                |config: Config, number: u32| Config { toast_duration: number, ..config },
            ),
            Message::StartTimer => AppModel { driver: self.driver.start(self.config), ..self },
            Message::StopTimer => AppModel { driver: self.driver.request_abort(), ..self },
            Message::TimerCycleFinished(result) => AppModel {
                driver: self.driver.cycle_finished(result),
                ..self
            },
            Message::SwitchStance => AppModel { driver: self.driver.request_skip(), ..self },
        }
    }

    /// What `message` means to the driver of the timer, if anything.
    pub open spec fn driver_input(self, message: Message) -> Option<DriverInput> {
        match message {
            Message::ConfigFileLoaded(Ok(config)) => Some(
                DriverInput::ShowStartStance(config.start_stance),
            ),
            Message::ConfigValueStanceChanged(stance) => Some(DriverInput::ShowStartStance(stance)),
            Message::StartTimer => Some(DriverInput::Start(self.config)),
            Message::StopTimer => Some(DriverInput::RequestAbort),
            Message::TimerCycleFinished(result) => Some(DriverInput::CycleFinished(result)),
            Message::SwitchStance => Some(DriverInput::RequestSkip),
            _ => None,
        }
    }

    /// What the application asks for in answer to `message`.
    pub open spec fn command(self, message: Message) -> Command {
        match message {
            Message::SaveConfigToFile => Command::SaveConfig(self.config),
            Message::StartTimer => if self.driver.running() {
                Command::Nothing
            } else if self.config.valid() {
                Command::RunCycle(self.driver.start(self.config).request(true))
            } else {
                Command::Refused(TimerError::ConfigInvalid)
            },
            Message::TimerCycleFinished(result) => match self.driver.next_cycle(result) {
                Some(request) => Command::RunCycle(request),
                None => Command::Nothing,
            },
            _ => Command::Nothing,
        }
    }
}

/// The application: the configuration under edit, whether it is saved, and
/// the driver of the timer.
#[derive(Debug)]
pub struct App {
    config: Config,
    config_saved: bool,
    driver: SessionDriver,
}

impl View for App {
    type V = AppModel;

    closed spec fn view(&self) -> AppModel {
        AppModel { config: self.config, config_saved: self.config_saved, driver: self.driver@ }
    }
}

impl Default for App {
    /// The application with the default configuration, not yet saved, and a
    /// timer that has not run.
    fn default() -> (app: App)
        ensures
            app@ == AppModel::initial(),
    {
        App { config: Config::default(), config_saved: false, driver: SessionDriver::new() }
    }
}

impl App {
    /// The application as it comes up, and its first wish: to load the
    /// configuration file.
    pub fn new() -> (start: (App, Command))
        ensures
            start.0@ == AppModel::initial(),
            start.1 == Command::LoadConfig,
    {
        (App::default(), Command::LoadConfig)
    }

    /// The title of the window.
    pub fn title(&self) -> (title: String)
        ensures
            title@ == "rustnot"@,
    {
        String::from_str("rustnot")
    }

    /// Takes `message` in and says what to do next.
    pub fn update(&mut self, message: Message) -> (command: Command)
        ensures
            final(self)@ == old(self)@.update(message),
            command == old(self)@.command(message),
    {
        match message {
            Message::ConfigFileLoaded(loaded) => {
                if let Ok(config) = loaded {
                    self.driver.show_start_stance(config.start_stance);
                    self.config = config;
                    self.config_saved = true;
                }
                Command::Nothing
            },
            Message::SaveConfigToFile => Command::SaveConfig(self.config),
            Message::ConfigSavedToFile(saved) => {
                self.config_saved = saved.is_ok();
                Command::Nothing
            },
            Message::ConfigValueSitTimeChanged(text) => {
                if let Some(number) = parse_u32(text.as_str()) {
                    self.config.sit_time = number;
                    self.config_saved = false;
                }
                Command::Nothing
            },
            Message::ConfigValueStandTimeChanged(text) => {
                if let Some(number) = parse_u32(text.as_str()) {
                    self.config.stand_time = number;
                    self.config_saved = false;
                }
                Command::Nothing
            },
            Message::ConfigValueStanceChanged(stance) => {
                self.config.start_stance = stance;
                self.driver.show_start_stance(stance);
                self.config_saved = false;
                Command::Nothing
            },
            Message::ConfigValueToastTimeChanged(text) => {
                if let Some(number) = parse_u32(text.as_str()) {
                    self.config.toast_duration = number;
                    self.config_saved = false;
                }
                Command::Nothing
            },
            Message::StartTimer => {
                if self.driver.is_running() {
                    return Command::Nothing;
                }
                match self.driver.start(&self.config) {
                    Ok(transition) => Command::RunCycle(transition.next_cycle.unwrap()),
                    Err(error) => Command::Refused(error),
                }
            },
            Message::StopTimer => {
                self.driver.request_abort();
                Command::Nothing
            },
            Message::TimerCycleFinished(result) => {
                match self.driver.cycle_finished(result).next_cycle {
                    Some(request) => Command::RunCycle(request),
                    None => Command::Nothing,
                }
            },
            Message::SwitchStance => {
                self.driver.request_skip();
                Command::Nothing
            },
        }
    }

    /// The configuration as the user has edited it.
    pub fn config(&self) -> (config: Config)
        ensures
            config == self@.config,
    {
        self.config
    }

    /// Whether the configuration file holds the configuration on show.
    pub fn config_saved(&self) -> (saved: bool)
        ensures
            saved == self@.config_saved,
    {
        self.config_saved
    }

    /// Whether the timer runs.
    pub fn timer_running(&self) -> (running: bool)
        ensures
            running == self@.driver.running(),
    {
        self.driver.is_running()
    }

    /// The stance on show.
    pub fn current_stance(&self) -> (stance: Stance)
        ensures
            stance == self@.driver.current_stance,
    {
        self.driver.current_stance()
    }

    /// What the signal register reads. The waiters of the cycle under way
    /// look here.
    pub fn signal(&self) -> (signal: TimerSignal)
        ensures
            signal == self@.driver.signal,
    {
        self.driver.signal()
    }

    /// The line under the save button.
    pub fn save_state_text(&self) -> (text: &'static str)
        ensures
            text@ == save_state_label(self@.config_saved),
    {
        if self.config_saved {
            "Config saved"
        } else {
            "Unsaved config"
        }
    }

    /// The line that tells whether the timer runs.
    pub fn timer_state_text(&self) -> (text: &'static str)
        ensures
            text@ == timer_state_label(self@.driver.running()),
    {
        if self.driver.is_running() {
            "Running ..."
        } else {
            "Stopped"
        }
    }

    /// What is written on the button that starts and stops the timer.
    pub fn timer_button_text(&self) -> (text: &'static str)
        ensures
            text@ == timer_button_label(self@.driver.running()),
    {
        if self.driver.is_running() {
            "Stop Timer"
        } else {
            "Start Timer"
        }
    }

    /// What pressing that button sends: it stops a running timer and starts
    /// a resting one.
    pub fn timer_button_message(&self) -> (message: Message)
        ensures
            message == (if self@.driver.running() {
                Message::StopTimer
            } else {
                Message::StartTimer
            }),
    {
        if self.driver.is_running() {
            Message::StopTimer
        } else {
            Message::StartTimer
        }
    }
}

} // verus!
