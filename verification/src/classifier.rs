//! The burn phases of a stove, the thresholds between them, and the rule
//! that picks the next phase from the current one, the trend of the
//! temperature and the temperature itself.
//!
//! The rule is a function of its arguments alone. Every comparison in it is
//! strict: a temperature or a rate that equals a threshold has not crossed it.

use vstd::prelude::*;
use vstd::string::StringExecFns;
use crate::temperature::{
    rate_per_minute, ticks_of_fahrenheit, ticks_of_fahrenheit_delta, RateOfChange, Temperature,
    TemperatureDelta, THOUSANDTHS,
};

verus! {

/// Default for `StoveConfig::idle_threshold`: 150 °F.
pub const DEFAULT_IDLE_MILLI_FAHRENHEIT: i32 = 150_000;

/// Default for `StoveConfig::active_threshold`: 400 °F.
pub const DEFAULT_ACTIVE_MILLI_FAHRENHEIT: i32 = 400_000;

/// Default for `StoveConfig::active_exit_threshold`: 350 °F.
pub const DEFAULT_ACTIVE_EXIT_MILLI_FAHRENHEIT: i32 = 350_000;

/// Default for `StoveConfig::overheat_threshold`: 700 °F.
pub const DEFAULT_OVERHEAT_MILLI_FAHRENHEIT: i32 = 700_000;

/// Default for `StoveConfig::rising_fast_rate`: a rise of 5 °F in a minute.
pub const DEFAULT_RISING_FAST_MILLI_FAHRENHEIT_PER_MINUTE: i32 = 5_000;

/// Default for `StoveConfig::falling_rate`: a fall of 3 °F in a minute.
pub const DEFAULT_FALLING_MILLI_FAHRENHEIT_PER_MINUTE: i32 = -3_000;

/// Default for `StoveConfig::stable_rate`: a rise of 1.2 °F in a minute.
pub const DEFAULT_STABLE_MILLI_FAHRENHEIT_PER_MINUTE: i32 = 1_200;

/// The rate ticks of a change of `f` millidegrees Fahrenheit in one minute.
pub open spec fn fahrenheit_per_minute(f: int) -> int {
    rate_per_minute(ticks_of_fahrenheit_delta(f), 1_000)
}

/// The operating phase of the stove.
#[derive(Debug, Clone, Copy, PartialEq, Eq, Structural)]
pub enum BurnState {
    /// No fire.
    Idle,
    /// A fire is being lit or reloaded.
    Startup,
    /// The fire burns at its working temperature.
    ActiveBurn,
    /// The fire is dying on its coals.
    Coaling,
    /// The stove is hotter than is safe.
    Overheat,
}

impl BurnState {
    /// The name of the phase as a sequence of characters.
    pub open spec fn spec_name(self) -> Seq<char> {
        match self {
            BurnState::Idle => "Idle"@,
            BurnState::Startup => "Startup"@,
            BurnState::ActiveBurn => "ActiveBurn"@,
            BurnState::Coaling => "Coaling"@,
            BurnState::Overheat => "Overheat"@,
        }
    }

    /// The name of the phase, for a log or a message.
    pub fn to_string(&self) -> (name: String)
        ensures
            name@ == self.spec_name(),
    {
        match self {
            BurnState::Idle => String::from_str("Idle"),
            BurnState::Startup => String::from_str("Startup"),
            BurnState::ActiveBurn => String::from_str("ActiveBurn"),
            BurnState::Coaling => String::from_str("Coaling"),
            BurnState::Overheat => String::from_str("Overheat"),
        }
    }
}

/// The trend of the temperature, read off the smoothed rate of change.
#[derive(Debug, Clone, Copy, PartialEq, Eq, Structural)]
pub enum TempChangeType {
    /// Rising faster than `StoveConfig::rising_fast_rate`.
    RisingFast,
    /// Falling faster than `StoveConfig::falling_rate`.
    Falling,
    /// Neither.
    Stable,
}

/// The thresholds that part the phases and the trends.
#[derive(Debug, Clone, Copy, PartialEq, Eq, Structural)]
pub struct StoveConfig {
    /// Above this an idle stove that heats up fast is being lit; below it a
    /// stove on its coals with a steady temperature has gone out.
    pub idle_threshold: Temperature,
    /// Above this a stove that is starting up burns; below it an overheated
    /// stove burns again.
    pub active_threshold: Temperature,
    /// Below this a burning stove that cools is on its coals. It lies under
    /// `active_threshold`, so that a fire near one of them does not flicker
    /// between two phases.
    pub active_exit_threshold: Temperature,
    /// Above this the stove overheats, whatever else holds.
    pub overheat_threshold: Temperature,
    /// A rate above this is a fast rise.
    pub rising_fast_rate: RateOfChange,
    /// A rate below this is a fall.
    pub falling_rate: RateOfChange,
    /// The rate up to which a fire is held to be steady. The rule does not
    /// read it.
    pub stable_rate: RateOfChange,
}

impl StoveConfig {
    /// Whether these are the default thresholds: 150 °F, 400 °F, 350 °F and
    /// 700 °F, and rates of 5 °F, -3 °F and 1.2 °F in a minute.
    pub open spec fn is_default(self) -> bool {
        &&& self.idle_threshold@ == ticks_of_fahrenheit(150_000)
        &&& self.active_threshold@ == ticks_of_fahrenheit(400_000)
        &&& self.active_exit_threshold@ == ticks_of_fahrenheit(350_000)
        &&& self.overheat_threshold@ == ticks_of_fahrenheit(700_000)
        &&& self.rising_fast_rate@ == fahrenheit_per_minute(5_000)
        &&& self.falling_rate@ == fahrenheit_per_minute(-3_000)
        &&& self.stable_rate@ == fahrenheit_per_minute(1_200)
    }

    /// The trend that a smoothed rate of `rate` rate ticks stands for. While
    /// there is no rate yet the temperature counts as stable.
    pub open spec fn trend_of(self, rate: Option<int>) -> TempChangeType {
        match rate {
            None => TempChangeType::Stable,
            Some(r) => if r > self.rising_fast_rate@ {
                TempChangeType::RisingFast
            } else if r < self.falling_rate@ {
                TempChangeType::Falling
            } else {
                TempChangeType::Stable
            },
        }
    }

    /// The phase that follows `state` when the trend is `trend` and the
    /// stove is at `temp` ticks.
    pub open spec fn next_state(self, state: BurnState, trend: TempChangeType, temp: int)
        -> BurnState {
        if temp > self.overheat_threshold@ {
            BurnState::Overheat
        } else {
            match state {
                BurnState::Idle => if temp > self.idle_threshold@ && trend
                    == TempChangeType::RisingFast {
                    BurnState::Startup
                } else {
                    BurnState::Idle
                },
                BurnState::Startup => if temp > self.active_threshold@ {
                    BurnState::ActiveBurn
                } else if trend == TempChangeType::Falling {
                    BurnState::Coaling
                } else {
                    BurnState::Startup
                },
                BurnState::ActiveBurn => if temp < self.active_exit_threshold@ && trend
                    == TempChangeType::Falling {
                    BurnState::Coaling
                } else {
                    BurnState::ActiveBurn
                },
                BurnState::Coaling => if temp < self.idle_threshold@ && trend
                    == TempChangeType::Stable {
                    BurnState::Idle
                } else if trend == TempChangeType::RisingFast {
                    BurnState::Startup
                } else {
                    BurnState::Coaling
                },
                BurnState::Overheat => if temp < self.active_threshold@ {
                    BurnState::ActiveBurn
                } else {
                    BurnState::Overheat
                },
            }
        }
    }

    /// Reads the trend off a smoothed rate.
    pub fn classify_rate(&self, rate: Option<RateOfChange>) -> (trend: TempChangeType)
        ensures
            trend == self.trend_of(rate_ticks(rate)),
    {
        match rate {
            None => TempChangeType::Stable,
            Some(r) => {
                if r > self.rising_fast_rate {
                    TempChangeType::RisingFast
                } else if r < self.falling_rate {
                    TempChangeType::Falling
                } else {
                    TempChangeType::Stable
                }
            },
        }
    }

    /// Picks the phase that follows `state`.
    pub fn classify_state(&self, state: BurnState, roc_class: TempChangeType, temp: Temperature)
        -> (next: BurnState)
        ensures
            next == self.next_state(state, roc_class, temp@),
    {
        if temp > self.overheat_threshold {
            return BurnState::Overheat;
        }
        match state {
            // An idle stove is lit or stays idle.
            BurnState::Idle => {
                if temp > self.idle_threshold && roc_class == TempChangeType::RisingFast {
                    BurnState::Startup
                } else {
                    BurnState::Idle
                }
            },
            // A fire that starts catches, goes out, or keeps starting.
            BurnState::Startup => {
                if temp > self.active_threshold {
                    BurnState::ActiveBurn
                } else if roc_class == TempChangeType::Falling {
                    BurnState::Coaling
                } else {
                    BurnState::Startup
                }
            },
            // A fire that burns dies down or keeps burning.
            BurnState::ActiveBurn => {
                if temp < self.active_exit_threshold && roc_class == TempChangeType::Falling {
                    BurnState::Coaling
                } else {
                    BurnState::ActiveBurn
                }
            },
            // Coals go out, are reloaded, or keep glowing.
            BurnState::Coaling => {
                if temp < self.idle_threshold && roc_class == TempChangeType::Stable {
                    BurnState::Idle
                } else if roc_class == TempChangeType::RisingFast {
                    BurnState::Startup
                } else {
                    BurnState::Coaling
                }
            },
            // An overheated stove must cool to the working temperature.
            BurnState::Overheat => {
                if temp < self.active_threshold {
                    BurnState::ActiveBurn
                } else {
                    BurnState::Overheat
                }
            },
        }
    }
}

impl Default for StoveConfig {
    /// The default thresholds.
    fn default() -> (config: StoveConfig)
        ensures
            config.is_default(),
    {
        StoveConfig {
            idle_threshold: Temperature::from_fahrenheit(DEFAULT_IDLE_MILLI_FAHRENHEIT),
            active_threshold: Temperature::from_fahrenheit(DEFAULT_ACTIVE_MILLI_FAHRENHEIT),
            active_exit_threshold: Temperature::from_fahrenheit(
                DEFAULT_ACTIVE_EXIT_MILLI_FAHRENHEIT,
            ),
            overheat_threshold: Temperature::from_fahrenheit(DEFAULT_OVERHEAT_MILLI_FAHRENHEIT),
            rising_fast_rate: rate_in_a_minute(DEFAULT_RISING_FAST_MILLI_FAHRENHEIT_PER_MINUTE),
            falling_rate: rate_in_a_minute(DEFAULT_FALLING_MILLI_FAHRENHEIT_PER_MINUTE),
            stable_rate: rate_in_a_minute(DEFAULT_STABLE_MILLI_FAHRENHEIT_PER_MINUTE),
        }
    }
}

/// The rate ticks of a rate, where there is one.
pub open spec fn rate_ticks(rate: Option<RateOfChange>) -> Option<int> {
    match rate {
        Some(r) => Some(r@),
        None => None,
    }
}

/// The ticks of a temperature, where there is one.
pub open spec fn temperature_ticks(temp: Option<Temperature>) -> Option<int> {
    match temp {
        Some(t) => Some(t@),
        None => None,
    }
}

/// The rate of a change of `f` millidegrees Fahrenheit in one minute.
fn rate_in_a_minute(f: i32) -> (rate: RateOfChange)
    ensures
        rate@ == fahrenheit_per_minute(f as int),
{
    RateOfChange::new_per_minute(TemperatureDelta::from_fahrenheit(f), THOUSANDTHS as u64).unwrap()
}

/// A stove hotter than the overheat threshold overheats, whatever its phase
/// and whatever the trend.
pub proof fn lemma_overheat_overrides(
    config: StoveConfig,
    state: BurnState,
    trend: TempChangeType,
    temp: int,
)
    requires
        temp > config.overheat_threshold@,
    ensures
        config.next_state(state, trend, temp) == BurnState::Overheat,
{
}

/// A temperature that equals a threshold has not crossed it: at the overheat
/// threshold nothing overheats that did not before, at the idle threshold an
/// idle stove stays idle, at the active threshold a stove that starts up
/// does not burn yet and an overheated one does not burn again, and at a
/// rate threshold the temperature is stable.
pub proof fn lemma_thresholds_are_strict(
    config: StoveConfig,
    state: BurnState,
    trend: TempChangeType,
)
    ensures
        state != BurnState::Overheat ==> config.next_state(
            state,
            trend,
            config.overheat_threshold@,
        ) != BurnState::Overheat,
        config.idle_threshold@ <= config.overheat_threshold@ ==> config.next_state(
            BurnState::Idle,
            trend,
            config.idle_threshold@,
        ) == BurnState::Idle,
        config.active_threshold@ <= config.overheat_threshold@ ==> config.next_state(
            BurnState::Startup,
            trend,
            config.active_threshold@,
        ) != BurnState::ActiveBurn && config.next_state(
            BurnState::Overheat,
            trend,
            config.active_threshold@,
        ) == BurnState::Overheat,
        config.falling_rate@ <= config.rising_fast_rate@ ==> config.trend_of(
            Some(config.rising_fast_rate@),
        ) == TempChangeType::Stable && config.trend_of(Some(config.falling_rate@))
            == TempChangeType::Stable,
{
}

/// The phases that can follow a phase in one step: a stove overheats from
/// any phase; beside that an idle stove starts up, a stove that starts up
/// burns or falls to its coals, a burning stove falls to its coals, coals
/// go out or are lit again, and an overheated stove burns again; and every
/// phase can stay.
pub open spec fn can_follow(state: BurnState, next: BurnState) -> bool {
    ||| next == state
    ||| next == BurnState::Overheat
    ||| state == BurnState::Idle && next == BurnState::Startup
    ||| state == BurnState::Startup && (next == BurnState::ActiveBurn || next
        == BurnState::Coaling)
    ||| state == BurnState::ActiveBurn && next == BurnState::Coaling
    ||| state == BurnState::Coaling && (next == BurnState::Idle || next == BurnState::Startup)
    ||| state == BurnState::Overheat && next == BurnState::ActiveBurn
}

/// The rule never picks a phase that cannot follow the current one.
pub proof fn lemma_next_state_can_follow(
    config: StoveConfig,
    state: BurnState,
    trend: TempChangeType,
    temp: int,
)
    ensures
        can_follow(state, config.next_state(state, trend, temp)),
{
}

} // verus!
