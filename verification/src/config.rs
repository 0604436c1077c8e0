//! Stances and the timer configuration.

use vstd::prelude::*;
use vstd::string::*;

verus! {

/// One of the two postures a session alternates between.
#[derive(Debug, Clone, Copy, PartialEq, Eq, Structural)]
pub enum Stance {
    Standing,
    Sitting,
}

impl Stance {
    /// The other stance.
    pub open spec fn toggled(self) -> Stance {
        match self {
            Stance::Sitting => Stance::Standing,
            Stance::Standing => Stance::Sitting,
        }
    }

    /// The stance reached from `self` after `cycles` changes of stance.
    pub open spec fn after(self, cycles: nat) -> Stance {
        if cycles % 2 == 0 {
            self
        } else {
            self.toggled()
        }
    }

    /// The name of the stance as it is shown to the user.
    pub open spec fn name(self) -> Seq<char> {
        match self {
            Stance::Sitting => "Sitting"@,
            Stance::Standing => "Standing"@,
        }
    }

    /// Switches between sitting and standing.
    #[verifier::when_used_as_spec(toggled)]
    pub fn toggle(self) -> (other: Stance)
        ensures
            other == self.toggled(),
    {
        match self {
            Stance::Sitting => Stance::Standing,
            Stance::Standing => Stance::Sitting,
        }
    }

    /// The text `Sitting` or `Standing`.
    pub fn to_string(&self) -> (text: String)
        ensures
            text@ == self.name(),
    {
        match self {
            Stance::Sitting => String::from_str("Sitting"),
            Stance::Standing => String::from_str("Standing"),
        }
    }
}

impl Default for Stance {
    /// A session starts sitting unless told otherwise.
    fn default() -> (stance: Stance)
        ensures
            stance == Stance::Sitting,
    {
        Stance::Sitting
    }
}

/// What the user has configured: how long to sit and to stand, in minutes,
/// the stance a session starts in, and for how many seconds a notification
/// stays on screen.
#[derive(Debug, Clone, Copy, PartialEq, Eq, Structural)]
pub struct Config {
    pub sit_time: u32,
    pub stand_time: u32,
    pub start_stance: Stance,
    pub toast_duration: u32,
}

impl Config {
    /// A configuration can drive a session when all three durations are
    /// positive.
    pub open spec fn valid(&self) -> bool {
        &&& self.sit_time > 0
        &&& self.stand_time > 0
        &&& self.toast_duration > 0
    }

    /// The configuration in use until the user chooses another.
    pub open spec fn initial() -> Config {
        Config { sit_time: 45, stand_time: 15, start_stance: Stance::Sitting, toast_duration: 7 }
    }

    /// The minutes to spend in `stance`.
    pub open spec fn minutes_for(self, stance: Stance) -> u32 {
        match stance {
            Stance::Sitting => self.sit_time,
            Stance::Standing => self.stand_time,
        }
    }

    /// Whether all three durations are positive.
    #[verifier::when_used_as_spec(valid)]
    pub fn is_valid(&self) -> (ok: bool)
        ensures
            ok == self.valid(),
    {
        self.sit_time > 0 && self.stand_time > 0 && self.toast_duration > 0
    }

    /// The minutes to spend in `stance`.
    pub fn duration_for(&self, stance: Stance) -> (minutes: u32)
        ensures
            minutes == self.minutes_for(stance),
    {
        match stance {
            Stance::Sitting => self.sit_time,
            Stance::Standing => self.stand_time,
        }
    }
}

impl Default for Config {
    /// Forty-five minutes sitting, fifteen standing, starting seated, with
    /// notifications shown for seven seconds.
    fn default() -> (config: Config)
        ensures
            config == Config::initial(),
    {
        Config { sit_time: 45, stand_time: 15, start_stance: Stance::Sitting, toast_duration: 7 }
    }
}

/// Why loading or saving the configuration file failed.
#[derive(Debug, Clone, Copy, PartialEq, Eq, Structural)]
pub enum ConfigFileError {
    Read,
    Write,
    ParseFile,
    ParseState,
}

impl ConfigFileError {
    /// The sentence that describes the failure.
    pub open spec fn message(self) -> Seq<char> {
        match self {
            ConfigFileError::Read => "Failed to read the config file."@,
            ConfigFileError::Write => "Failed to write the config file."@,
            ConfigFileError::ParseFile => "Failed to parse the config file."@,
            ConfigFileError::ParseState => "Failed to parse the config state."@,
        }
    }

    /// The sentence that describes the failure.
    pub fn to_string(&self) -> (text: String)
        ensures
            text@ == self.message(),
    {
        match self {
            ConfigFileError::Read => String::from_str("Failed to read the config file."),
            ConfigFileError::Write => String::from_str("Failed to write the config file."),
            ConfigFileError::ParseFile => String::from_str("Failed to parse the config file."),
            ConfigFileError::ParseState => String::from_str("Failed to parse the config state."),
        }
    }
}

} // verus!
