//! User settings: their bounds, the fallback chain at startup and the
//! all-or-nothing partial update.

use vstd::prelude::*;
use vstd::string::*;

verus! {

/// Longest reminder interval: twenty-four hours, in milliseconds.
pub const MAX_TIMER_INTERVAL_MS: u64 = 86_400_000;

/// Largest amount a single sip may record: one litre.
pub const MAX_SIP_AMOUNT_ML: i64 = 1000;

/// Largest daily goal: ten litres.
pub const MAX_DAILY_GOAL_ML: i64 = 10_000;

/// The user-tunable parameters.
#[derive(Debug, Clone, Copy, PartialEq, Eq, Structural)]
pub struct AppSettings {
    pub timer_interval_ms: u64,
    pub sip_amount_ml: i64,
    pub notifications_enabled: bool,
    pub start_minimized: bool,
    pub daily_goal_ml: i64,
}

/// A request to change some of the settings. A field that is `None` keeps
/// its current value.
#[derive(Debug, Clone, Copy, PartialEq, Eq, Structural)]
pub struct PartialAppSettings {
    pub timer_interval_ms: Option<u64>,
    pub sip_amount_ml: Option<i64>,
    pub notifications_enabled: Option<bool>,
    pub start_minimized: Option<bool>,
    pub daily_goal_ml: Option<i64>,
}

/// The bound that a rejected settings value breaks.
#[derive(Debug, Clone, Copy, PartialEq, Eq, Structural)]
pub enum ValidationError {
    /// `timer_interval_ms` is zero or longer than a day.
    TimerIntervalOutOfRange,
    /// `sip_amount_ml` is not positive or is more than a litre.
    SipAmountOutOfRange,
    /// `daily_goal_ml` is not positive or is more than ten litres.
    DailyGoalOutOfRange,
}

/// What was found where the settings file is kept.
#[derive(Debug, Clone, Copy, PartialEq, Eq, Structural)]
pub enum SettingsFile {
    /// There is no file.
    Missing,
    /// The file exists but could not be read.
    Unreadable,
    /// The file was read but is not a settings document.
    Malformed,
    /// The file was read and holds these values.
    Parsed(AppSettings),
}

/// The settings to start with, and whether the file has to be written anew.
#[derive(Debug, Clone, Copy, PartialEq, Eq, Structural)]
pub struct LoadedSettings {
    pub settings: AppSettings,
    /// True when the defaults replace a missing, malformed or invalid file
    /// and must be saved.
    pub save_defaults: bool,
}

pub open spec fn timer_interval_in_range(ms: u64) -> bool {
    0 < ms <= MAX_TIMER_INTERVAL_MS
}

pub open spec fn sip_amount_in_range(ml: i64) -> bool {
    0 < ml <= MAX_SIP_AMOUNT_ML
}

pub open spec fn daily_goal_in_range(ml: i64) -> bool {
    0 < ml <= MAX_DAILY_GOAL_ML
}

impl ValidationError {
    /// The text of each error.
    pub open spec fn spec_message(self) -> Seq<char> {
        match self {
            ValidationError::TimerIntervalOutOfRange =>
                "Invalid settings after update: timer_interval_ms must be between 1 and 86400000"@,
            ValidationError::SipAmountOutOfRange =>
                "Invalid settings after update: sip_amount_ml must be between 1 and 1000"@,
            ValidationError::DailyGoalOutOfRange =>
                "Invalid settings after update: daily_goal_ml must be between 1 and 10000"@,
        }
    }

    /// Describes the broken bound for the user.
    pub fn message(&self) -> (text: String)
        ensures
            text@ == self.spec_message(),
    {
        match self {
            ValidationError::TimerIntervalOutOfRange => String::from_str(
                "Invalid settings after update: timer_interval_ms must be between 1 and 86400000",
            ),
            ValidationError::SipAmountOutOfRange => String::from_str(
                "Invalid settings after update: sip_amount_ml must be between 1 and 1000",
            ),
            ValidationError::DailyGoalOutOfRange => String::from_str(
                "Invalid settings after update: daily_goal_ml must be between 1 and 10000",
            ),
        }
    }
}

impl AppSettings {
    /// The values used when nothing valid is stored.
    pub open spec fn spec_default() -> AppSettings {
        AppSettings {
            timer_interval_ms: 1000,
            sip_amount_ml: 35,
            notifications_enabled: true,
            start_minimized: true,
            daily_goal_ml: 2000,
        }
    }

    /// All three bounds hold at once.
    pub open spec fn valid(self) -> bool {
        &&& timer_interval_in_range(self.timer_interval_ms)
        &&& sip_amount_in_range(self.sip_amount_ml)
        &&& daily_goal_in_range(self.daily_goal_ml)
    }

    /// The first bound that does not hold, in the order of the fields.
    pub open spec fn violation(self) -> Option<ValidationError> {
        if !timer_interval_in_range(self.timer_interval_ms) {
            Some(ValidationError::TimerIntervalOutOfRange)
        } else if !sip_amount_in_range(self.sip_amount_ml) {
            Some(ValidationError::SipAmountOutOfRange)
        } else if !daily_goal_in_range(self.daily_goal_ml) {
            Some(ValidationError::DailyGoalOutOfRange)
        } else {
            None
        }
    }

    /// These settings with every field that `partial` names replaced.
    pub open spec fn merged(self, partial: PartialAppSettings) -> AppSettings {
        AppSettings {
            timer_interval_ms: match partial.timer_interval_ms {
                Some(v) => v,
                None => self.timer_interval_ms,
            },
            sip_amount_ml: match partial.sip_amount_ml {
                Some(v) => v,
                None => self.sip_amount_ml,
            },
            notifications_enabled: match partial.notifications_enabled {
                Some(v) => v,
                None => self.notifications_enabled,
            },
            start_minimized: match partial.start_minimized {
                Some(v) => v,
                None => self.start_minimized,
            },
            daily_goal_ml: match partial.daily_goal_ml {
                Some(v) => v,
                None => self.daily_goal_ml,
            },
        }
    }

    /// What startup does with each state of the settings file: stored values
    /// are kept only if they are valid, and the defaults are saved unless the
    /// file could not even be read.
    pub open spec fn spec_load(file: SettingsFile) -> LoadedSettings {
        match file {
            SettingsFile::Parsed(stored) if stored.valid() => LoadedSettings {
                settings: stored,
                save_defaults: false,
            },
            SettingsFile::Unreadable => LoadedSettings {
                settings: Self::spec_default(),
                save_defaults: false,
            },
            _ => LoadedSettings { settings: Self::spec_default(), save_defaults: true },
        }
    }

    /// Decides which settings the program starts with. Never fails: whatever
    /// the file holds, the result is valid.
    pub fn load(file: SettingsFile) -> (loaded: LoadedSettings)
        ensures
            loaded == Self::spec_load(file),
            loaded.settings.valid(),
    {
        match file {
            SettingsFile::Parsed(stored) => {
                if stored.is_valid() {
                    LoadedSettings { settings: stored, save_defaults: false }
                } else {
                    LoadedSettings { settings: AppSettings::default(), save_defaults: true }
                }
            },
            SettingsFile::Unreadable => LoadedSettings {
                settings: AppSettings::default(),
                save_defaults: false,
            },
            SettingsFile::Missing | SettingsFile::Malformed => LoadedSettings {
                settings: AppSettings::default(),
                save_defaults: true,
            },
        }
    }

    /// Tests the three bounds.
    pub fn is_valid(&self) -> (ok: bool)
        ensures
            ok == self.valid(),
    {
        self.timer_interval_ms > 0 && self.sip_amount_ml > 0 && self.daily_goal_ml > 0
            && self.timer_interval_ms <= MAX_TIMER_INTERVAL_MS && self.sip_amount_ml
            <= MAX_SIP_AMOUNT_ML && self.daily_goal_ml <= MAX_DAILY_GOAL_ML
    }

    /// Names the bound that these settings break, if any.
    pub fn validate(&self) -> (outcome: Result<(), ValidationError>)
        ensures
            outcome is Ok <==> self.valid(),
            outcome matches Err(e) ==> self.violation() == Some(e),
    {
        if self.timer_interval_ms == 0 || self.timer_interval_ms > MAX_TIMER_INTERVAL_MS {
            Err(ValidationError::TimerIntervalOutOfRange)
        } else if self.sip_amount_ml <= 0 || self.sip_amount_ml > MAX_SIP_AMOUNT_ML {
            Err(ValidationError::SipAmountOutOfRange)
        } else if self.daily_goal_ml <= 0 || self.daily_goal_ml > MAX_DAILY_GOAL_ML {
            Err(ValidationError::DailyGoalOutOfRange)
        } else {
            Ok(())
        }
    }

    /// Applies `partial` as a unit. If the merged settings are valid they
    /// replace the current ones; if not, nothing changes and the error names
    /// the first bound that the merged settings break.
    pub fn update_with_partial(&mut self, partial: PartialAppSettings) -> (outcome: Result<
        (),
        ValidationError,
    >)
        ensures
            outcome is Ok <==> old(self).merged(partial).valid(),
            outcome is Ok ==> *final(self) == old(self).merged(partial),
            outcome matches Err(e) ==> *final(self) == *old(self) && old(self).merged(
                partial,
            ).violation() == Some(e),
    {
        let mut candidate = *self;
        if let Some(timer_interval_ms) = partial.timer_interval_ms {
            candidate.timer_interval_ms = timer_interval_ms;
        }
        if let Some(sip_amount_ml) = partial.sip_amount_ml {
            candidate.sip_amount_ml = sip_amount_ml;
        }
        if let Some(notifications_enabled) = partial.notifications_enabled {
            candidate.notifications_enabled = notifications_enabled;
        }
        if let Some(start_minimized) = partial.start_minimized {
            candidate.start_minimized = start_minimized;
        }
        if let Some(daily_goal_ml) = partial.daily_goal_ml {
            candidate.daily_goal_ml = daily_goal_ml;
        }
        match candidate.validate() {
            Ok(()) => {
                *self = candidate;
                Ok(())
            },
            Err(e) => Err(e),
        }
    }
}

impl Default for AppSettings {
    fn default() -> (settings: AppSettings)
        ensures
            settings == AppSettings::spec_default(),
    {
        AppSettings {
            timer_interval_ms: 1000,
            sip_amount_ml: 35,
            notifications_enabled: true,
            start_minimized: true,
            daily_goal_ml: 2000,
        }
    }
}

/// Hands out a copy of the current settings.
pub fn get_settings(current: &AppSettings) -> (settings: AppSettings)
    ensures
        settings == *current,
{
    *current
}

/// Handles a request to change settings. On success the current settings
/// are replaced and returned, to be saved by the caller. On failure they are
/// left exactly as they were and the text says which bound was broken.
pub fn update_settings(current: &mut AppSettings, partial: PartialAppSettings) -> (outcome: Result<
    AppSettings,
    String,
>)
    ensures
        outcome is Ok <==> old(current).merged(partial).valid(),
        outcome matches Ok(updated) ==> updated == old(current).merged(partial) && *final(current)
            == updated,
        outcome is Err ==> *final(current) == *old(current),
        outcome matches Err(text) ==> (old(current).merged(partial).violation() matches Some(e)
            && text@ == e.spec_message()),
{
    match current.update_with_partial(partial) {
        Ok(()) => Ok(*current),
        Err(e) => Err(e.message()),
    }
}

} // verus!
