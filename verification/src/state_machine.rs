//! The stove monitor: it takes one timed sample after another, keeps a
//! smoothed estimate of the rate at which the temperature changes, and
//! follows the burn phase of the stove.
//!
//! Instants and durations are whole thousandths of a second on a clock that
//! never runs backwards. The monitor reads no clock: the caller hands every
//! instant in.

use vstd::prelude::*;
use crate::classifier::{
    fahrenheit_per_minute, rate_ticks, temperature_ticks, BurnState, StoveConfig,
};
use crate::temperature::{
    ema_blend, rate_per_second, ticks_of_fahrenheit, RateOfChange, Temperature,
};

verus! {

/// The weight of a new slope in the smoothed rate where none is chosen: 0.3.
pub const DEFAULT_ROC_ALPHA: i32 = 300;

/// Coals colder than this want a reload: 300 °F.
pub const RELOAD_BELOW_MILLI_FAHRENHEIT: i32 = 300_000;

/// Coals older than this want a reload: thirty minutes.
pub const RELOAD_AFTER_MILLIS: u64 = 1_800_000;

/// What a monitor holds, as plain numbers: temperatures in ticks, rates in
/// rate ticks, instants in thousandths of a second, the weight in
/// thousandths.
pub struct StoveModel {
    /// The thresholds the monitor was made with.
    pub config: StoveConfig,
    /// The current phase.
    pub state: BurnState,
    /// When the current phase was entered.
    pub state_set_time: int,
    /// When the last sample was taken or, before the first, when the monitor
    /// was made.
    pub last_update_time: int,
    /// The temperature of the last sample.
    pub last_temp: Option<int>,
    /// The weight of a new slope in the smoothed rate.
    pub roc_alpha: int,
    /// The smoothed rate.
    pub rate_of_change: Option<int>,
}

impl StoveModel {
    /// A monitor made at `now` that has seen no sample.
    pub open spec fn initial(config: StoveConfig, roc_alpha: int, now: int) -> StoveModel {
        StoveModel {
            config,
            state: BurnState::Idle,
            state_set_time: now,
            last_update_time: now,
            last_temp: None,
            roc_alpha,
            rate_of_change: None,
        }
    }

    /// A rate needs two samples: where there is a rate there is a last
    /// sample.
    pub open spec fn wf(self) -> bool {
        self.rate_of_change is Some ==> self.last_temp is Some
    }

    /// The smoothed rate after a sample of `temp` ticks at `now`.
    ///
    /// The first sample gives no rate. The second gives its slope from the
    /// first. Each later one is blended into the rate so far. A sample that
    /// is no later than the one before it has no slope and leaves the rate
    /// as it is.
    pub open spec fn estimate(self, temp: int, now: int) -> Option<int> {
        match self.last_temp {
            Some(last) if now > self.last_update_time => {
                let instantaneous = rate_per_second(temp - last, now - self.last_update_time);
                match self.rate_of_change {
                    None => Some(instantaneous),
                    Some(previous) => Some(ema_blend(self.roc_alpha, instantaneous, previous)),
                }
            },
            _ => self.rate_of_change,
        }
    }

    /// The monitor after a sample of `temp` ticks at `now`.
    pub open spec fn step(self, temp: int, now: int) -> StoveModel {
        let rate = self.estimate(temp, now);
        let next = self.config.next_state(self.state, self.config.trend_of(rate), temp);
        StoveModel {
            config: self.config,
            state: next,
            state_set_time: if next != self.state {
                now
            } else {
                self.state_set_time
            },
            last_update_time: now,
            last_temp: Some(temp),
            roc_alpha: self.roc_alpha,
            rate_of_change: rate,
        }
    }

    /// How long the current phase has lasted at `now`; nothing at an instant
    /// before it began.
    pub open spec fn time_in_state(self, now: int) -> int {
        if now >= self.state_set_time {
            now - self.state_set_time
        } else {
            0
        }
    }

    /// Whether the coals want a reload at `now`: they are colder than
    /// 300 °F, Fahrenheit as the thresholds are, or older than thirty
    /// minutes. Coals that have no sample count as cold. In every other
    /// phase nothing wants a reload.
    pub open spec fn should_reload(self, now: int) -> bool {
        self.state == BurnState::Coaling && ({
            ||| self.last_temp is None
            ||| self.last_temp->0 < ticks_of_fahrenheit(300_000)
            ||| self.time_in_state(now) > 1_800_000
        })
    }
}

/// The monitor of one stove.
#[derive(Debug)]
pub struct StoveStateMachine {
    config: StoveConfig,
    state: BurnState,
    state_set_time: u64,
    last_update_time: u64,
    last_temp: Option<Temperature>,
    roc_alpha: i32,
    rate_of_change: Option<RateOfChange>,
}

impl View for StoveStateMachine {
    type V = StoveModel;

    closed spec fn view(&self) -> StoveModel {
        StoveModel {
            config: self.config,
            state: self.state,
            state_set_time: self.state_set_time as int,
            last_update_time: self.last_update_time as int,
            last_temp: temperature_ticks(self.last_temp),
            roc_alpha: self.roc_alpha as int,
            rate_of_change: rate_ticks(self.rate_of_change),
        }
    }
}

impl StoveStateMachine {
    /// A monitor made at `now` with the default weight.
    pub fn new(config: StoveConfig, now: u64) -> (machine: StoveStateMachine)
        ensures
            machine@ == StoveModel::initial(config, 300, now as int),
            machine@.state == BurnState::Idle,
            machine@.last_temp is None,
            machine@.rate_of_change is None,
            machine@.wf(),
    {
        StoveStateMachine::new_roc(config, None, now)
    }

    /// A monitor made at `now` that weighs a new slope with `roc_alpha`
    /// thousandths, or with the default weight where none is given.
    pub fn new_roc(config: StoveConfig, roc_alpha: Option<i32>, now: u64) -> (machine:
        StoveStateMachine)
        ensures
            machine@ == StoveModel::initial(
                config,
                match roc_alpha {
                    Some(alpha) => alpha as int,
                    None => 300,
                },
                now as int,
            ),
            machine@.state == BurnState::Idle,
            machine@.last_temp is None,
            machine@.rate_of_change is None,
            machine@.wf(),
    {
        StoveStateMachine {
            config,
            state: BurnState::Idle,
            state_set_time: now,
            last_update_time: now,
            last_temp: None,
            roc_alpha: roc_alpha.unwrap_or(DEFAULT_ROC_ALPHA),
            rate_of_change: None,
        }
    }

    /// A monitor that holds what is given, as one that was stopped and is
    /// taken up again.
    pub fn from_parts(
        config: StoveConfig,
        state: BurnState,
        state_set_time: u64,
        last_update_time: u64,
        last_temp: Option<Temperature>,
        roc_alpha: i32,
        rate_of_change: Option<RateOfChange>,
    ) -> (machine: StoveStateMachine)
        ensures
            machine@ == (StoveModel {
                config,
                state,
                state_set_time: state_set_time as int,
                last_update_time: last_update_time as int,
                last_temp: temperature_ticks(last_temp),
                roc_alpha: roc_alpha as int,
                rate_of_change: rate_ticks(rate_of_change),
            }),
    {
        StoveStateMachine {
            config,
            state,
            state_set_time,
            last_update_time,
            last_temp,
            roc_alpha,
            rate_of_change,
        }
    }

    /// Takes a sample of `current_temp` at `now` and says whether the phase
    /// changed.
    ///
    /// The sample first updates the smoothed rate, then the phase is picked
    /// anew from the trend of that rate and the temperature. A new phase
    /// begins at `now`; a phase that stays keeps its beginning.
    pub fn update(&mut self, current_temp: Temperature, now: u64) -> (changed: bool)
        ensures
            final(self)@ == old(self)@.step(current_temp@, now as int),
            changed == (final(self)@.state != old(self)@.state),
            changed ==> final(self)@.state_set_time == now,
            !changed ==> final(self)@.state_set_time == old(self)@.state_set_time,
            old(self)@.wf() ==> final(self)@.wf(),
    {
        let last = self.last_update_time;
        self.last_update_time = now;
        match self.last_temp {
            Some(last_temp) if now > last => {
                match current_temp.sub(last_temp).div(now - last) {
                    Some(instantaneous) => {
                        self.rate_of_change = Some(
                            match self.rate_of_change {
                                // The second sample: its slope is the rate.
                                None => instantaneous,
                                Some(previous) => previous.blend(instantaneous, self.roc_alpha),
                            },
                        );
                    },
                    None => {},
                }
            },
            _ => {},
        }
        self.last_temp = Some(current_temp);

        let rate_type = self.config.classify_rate(self.rate_of_change);
        let new_state = self.config.classify_state(self.state, rate_type, current_temp);
        if new_state != self.state {
            self.state_set_time = now;
            self.state = new_state;
            true
        } else {
            false
        }
    }

    /// The thresholds the monitor was made with.
    pub fn config(&self) -> (config: StoveConfig)
        ensures
            config == self@.config,
    {
        self.config
    }

    /// The current phase.
    pub fn current_state(&self) -> (state: BurnState)
        ensures
            state == self@.state,
    {
        self.state
    }

    /// When the current phase was entered.
    pub fn state_set_time(&self) -> (at: u64)
        ensures
            at == self@.state_set_time,
    {
        self.state_set_time
    }

    /// When the last sample was taken or, before the first, when the monitor
    /// was made.
    pub fn last_update_time(&self) -> (at: u64)
        ensures
            at == self@.last_update_time,
    {
        self.last_update_time
    }

    /// The temperature of the last sample.
    pub fn last_temp(&self) -> (temp: Option<Temperature>)
        ensures
            temperature_ticks(temp) == self@.last_temp,
    {
        self.last_temp
    }

    /// The weight of a new slope in the smoothed rate, in thousandths.
    pub fn roc_alpha(&self) -> (alpha: i32)
        ensures
            alpha == self@.roc_alpha,
    {
        self.roc_alpha
    }

    /// The smoothed rate.
    pub fn rate_of_change(&self) -> (rate: Option<RateOfChange>)
        ensures
            rate_ticks(rate) == self@.rate_of_change,
    {
        self.rate_of_change
    }

    /// How long the current phase has lasted at `now`.
    pub fn time_in_state(&self, now: u64) -> (elapsed: u64)
        ensures
            elapsed == self@.time_in_state(now as int),
    {
        if now >= self.state_set_time {
            now - self.state_set_time
        } else {
            0
        }
    }

    /// Whether the coals want a reload at `now`.
    pub fn should_reload(&self, now: u64) -> (reload: bool)
        ensures
            reload == self@.should_reload(now as int),
    {
        match self.state {
            BurnState::Coaling => {
                let cold = match self.last_temp {
                    None => true,
                    Some(temp) => temp < Temperature::from_fahrenheit(
                        RELOAD_BELOW_MILLI_FAHRENHEIT,
                    ),
                };
                cold || self.time_in_state(now) > RELOAD_AFTER_MILLIS
            },
            _ => false,
        }
    }
}

/// A monitor that has seen no sample has no rate after its first sample,
/// however long after the monitor was made the sample is taken.
pub proof fn lemma_first_sample_sets_no_rate(
    config: StoveConfig,
    roc_alpha: int,
    made_at: int,
    temp: int,
    now: int,
)
    ensures
        StoveModel::initial(config, roc_alpha, made_at).step(temp, now).rate_of_change is None,
        StoveModel::initial(config, roc_alpha, made_at).step(temp, now).last_temp == Some(temp),
        StoveModel::initial(config, roc_alpha, made_at).step(temp, now).last_update_time == now,
{
}

/// After the second sample the rate is the slope between the two samples,
/// with nothing blended in.
pub proof fn lemma_second_sample_sets_slope(
    config: StoveConfig,
    roc_alpha: int,
    made_at: int,
    first_temp: int,
    first_at: int,
    second_temp: int,
    second_at: int,
)
    requires
        first_at < second_at,
    ensures
        StoveModel::initial(config, roc_alpha, made_at).step(first_temp, first_at).step(
            second_temp,
            second_at,
        ).rate_of_change == Some(rate_per_second(second_temp - first_temp, second_at - first_at)),
{
}

/// After the third sample the rate is the blend of the slope between the
/// second sample and the third with the slope between the first and the
/// second.
pub proof fn lemma_third_sample_blends(
    config: StoveConfig,
    roc_alpha: int,
    made_at: int,
    first_temp: int,
    first_at: int,
    second_temp: int,
    second_at: int,
    third_temp: int,
    third_at: int,
)
    requires
        first_at < second_at < third_at,
    ensures
        StoveModel::initial(config, roc_alpha, made_at).step(first_temp, first_at).step(
            second_temp,
            second_at,
        ).step(third_temp, third_at).rate_of_change == Some(
            ema_blend(
                roc_alpha,
                rate_per_second(third_temp - second_temp, third_at - second_at),
                rate_per_second(second_temp - first_temp, second_at - first_at),
            ),
        ),
{
}

/// With the default thresholds an idle stove at 150 °F or colder stays
/// idle, however fast it heats up.
pub proof fn lemma_idle_stays_idle_below_threshold(monitor: StoveModel, temp: int, now: int)
    requires
        monitor.config.is_default(),
        monitor.state == BurnState::Idle,
        temp <= ticks_of_fahrenheit(150_000),
    ensures
        monitor.step(temp, now).state == BurnState::Idle,
        monitor.step(temp, now).state_set_time == monitor.state_set_time,
{
}

/// With the default thresholds an idle stove that heats up by more than
/// 5 °F in a minute and is hotter than 150 °F, and no hotter than 700 °F,
/// starts up: the phase changes, and the new phase begins with the sample.
pub proof fn lemma_idle_starts_up(monitor: StoveModel, temp: int, now: int)
    requires
        monitor.config.is_default(),
        monitor.state == BurnState::Idle,
        monitor.estimate(temp, now) matches Some(rate) && rate > fahrenheit_per_minute(5_000),
        ticks_of_fahrenheit(150_000) < temp <= ticks_of_fahrenheit(700_000),
    ensures
        monitor.step(temp, now).state == BurnState::Startup,
        monitor.step(temp, now).state != monitor.state,
        monitor.step(temp, now).state_set_time == now,
{
}

/// With the default thresholds a stove that starts up and is hotter than
/// 400 °F, and no hotter than 700 °F, burns.
pub proof fn lemma_startup_catches(monitor: StoveModel, temp: int, now: int)
    requires
        monitor.config.is_default(),
        monitor.state == BurnState::Startup,
        ticks_of_fahrenheit(400_000) < temp <= ticks_of_fahrenheit(700_000),
    ensures
        monitor.step(temp, now).state == BurnState::ActiveBurn,
{
}

/// With the default thresholds a stove hotter than 700 °F overheats,
/// whatever its phase and whatever the trend.
pub proof fn lemma_overheats_above_threshold(monitor: StoveModel, temp: int, now: int)
    requires
        monitor.config.is_default(),
        temp > ticks_of_fahrenheit(700_000),
    ensures
        monitor.step(temp, now).state == BurnState::Overheat,
{
}

/// With the default thresholds an overheated stove burns again once it is
/// colder than 400 °F.
pub proof fn lemma_overheat_recovers(monitor: StoveModel, temp: int, now: int)
    requires
        monitor.config.is_default(),
        monitor.state == BurnState::Overheat,
        temp < ticks_of_fahrenheit(400_000),
    ensures
        monitor.step(temp, now).state == BurnState::ActiveBurn,
{
}

/// With the default thresholds a burning stove that cools by more than
/// 3 °F in a minute and is colder than 350 °F is on its coals.
pub proof fn lemma_burn_dies_down(monitor: StoveModel, temp: int, now: int)
    requires
        monitor.config.is_default(),
        monitor.state == BurnState::ActiveBurn,
        monitor.estimate(temp, now) matches Some(rate) && rate < fahrenheit_per_minute(-3_000),
        temp < ticks_of_fahrenheit(350_000),
    ensures
        monitor.step(temp, now).state == BurnState::Coaling,
{
}

/// A sample that leaves the phase as it is leaves its beginning as it is;
/// one that changes the phase begins the new phase with the sample. On a
/// clock that does not run backwards the beginning of the phase never moves
/// back.
pub proof fn lemma_phase_begins_when_it_changes(monitor: StoveModel, temp: int, now: int)
    ensures
        monitor.step(temp, now).state == monitor.state ==> monitor.step(temp, now).state_set_time
            == monitor.state_set_time,
        monitor.step(temp, now).state != monitor.state ==> monitor.step(temp, now).state_set_time
            == now,
        now >= monitor.state_set_time ==> monitor.step(temp, now).state_set_time
            >= monitor.state_set_time,
{
}

/// A sample keeps a monitor well formed, and a monitor that has seen no
/// sample is well formed: no monitor has a rate before its second sample.
pub proof fn lemma_step_keeps_wf(monitor: StoveModel, temp: int, now: int)
    requires
        monitor.wf(),
    ensures
        monitor.step(temp, now).wf(),
        monitor.last_temp is None ==> monitor.step(temp, now).rate_of_change is None,
{
}

} // verus!
