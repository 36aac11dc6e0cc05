use woodstove_lib::classifier::{
    DEFAULT_ACTIVE_EXIT_MILLI_FAHRENHEIT, DEFAULT_ACTIVE_MILLI_FAHRENHEIT,
    DEFAULT_IDLE_MILLI_FAHRENHEIT, DEFAULT_OVERHEAT_MILLI_FAHRENHEIT,
};
use woodstove_lib::{
    BurnState, RateOfChange, StoveConfig, TempChangeType, Temperature, TemperatureDelta,
};

const STATES: [BurnState; 5] = [
    BurnState::Idle,
    BurnState::Startup,
    BurnState::ActiveBurn,
    BurnState::Coaling,
    BurnState::Overheat,
];

const TRENDS: [TempChangeType; 3] =
    [TempChangeType::RisingFast, TempChangeType::Falling, TempChangeType::Stable];

fn per_minute(milli_f: i32) -> RateOfChange {
    RateOfChange::new_per_minute(TemperatureDelta::from_fahrenheit(milli_f), 1_000).unwrap()
}

fn f(milli: i32) -> Temperature {
    Temperature::from_fahrenheit(milli)
}

#[test]
fn default_thresholds() {
    let config = StoveConfig::default();
    assert_eq!(config.idle_threshold.fahrenheit(), 150_000);
    assert_eq!(config.active_threshold.fahrenheit(), 400_000);
    assert_eq!(config.active_exit_threshold.fahrenheit(), 350_000);
    assert_eq!(config.overheat_threshold.fahrenheit(), 700_000);
    assert_eq!(config.rising_fast_rate.fahrenheit_per_minute(), 5_000);
    assert_eq!(config.falling_rate.fahrenheit_per_minute(), -3_000);
    assert_eq!(config.stable_rate.fahrenheit_per_minute(), 1_200);
    assert_eq!(config.idle_threshold, f(DEFAULT_IDLE_MILLI_FAHRENHEIT));
    assert_eq!(config.active_threshold, f(DEFAULT_ACTIVE_MILLI_FAHRENHEIT));
    assert_eq!(config.active_exit_threshold, f(DEFAULT_ACTIVE_EXIT_MILLI_FAHRENHEIT));
    assert_eq!(config.overheat_threshold, f(DEFAULT_OVERHEAT_MILLI_FAHRENHEIT));
    assert_eq!(config, StoveConfig::default());
}

#[test]
fn phase_names() {
    assert_eq!(BurnState::Idle.to_string(), "Idle");
    assert_eq!(BurnState::Startup.to_string(), "Startup");
    assert_eq!(BurnState::ActiveBurn.to_string(), "ActiveBurn");
    assert_eq!(BurnState::Coaling.to_string(), "Coaling");
    assert_eq!(BurnState::Overheat.to_string(), "Overheat");
}

#[test]
fn no_rate_is_stable() {
    assert_eq!(StoveConfig::default().classify_rate(None), TempChangeType::Stable);
}

#[test]
fn rate_thresholds_are_strict() {
    let config = StoveConfig::default();
    assert_eq!(config.classify_rate(Some(per_minute(5_001))), TempChangeType::RisingFast);
    assert_eq!(config.classify_rate(Some(per_minute(5_000))), TempChangeType::Stable);
    assert_eq!(config.classify_rate(Some(per_minute(1_200))), TempChangeType::Stable);
    assert_eq!(config.classify_rate(Some(per_minute(0))), TempChangeType::Stable);
    assert_eq!(config.classify_rate(Some(per_minute(-3_000))), TempChangeType::Stable);
    assert_eq!(config.classify_rate(Some(per_minute(-3_001))), TempChangeType::Falling);
}

#[test]
fn overheat_overrides_every_phase_and_trend() {
    let config = StoveConfig::default();
    for state in STATES {
        for trend in TRENDS {
            assert_eq!(config.classify_state(state, trend, f(700_001)), BurnState::Overheat);
            assert_eq!(config.classify_state(state, trend, f(813_450)), BurnState::Overheat);
        }
    }
}

#[test]
fn at_the_overheat_threshold_nothing_overheats() {
    let config = StoveConfig::default();
    for trend in TRENDS {
        assert_eq!(
            config.classify_state(BurnState::ActiveBurn, trend, f(700_000)),
            BurnState::ActiveBurn
        );
        assert_eq!(
            config.classify_state(BurnState::Startup, trend, f(700_000)),
            BurnState::ActiveBurn
        );
        assert_eq!(
            config.classify_state(BurnState::Overheat, trend, f(700_000)),
            BurnState::Overheat
        );
    }
}

#[test]
fn idle_transitions() {
    let config = StoveConfig::default();
    let next = |trend, milli| config.classify_state(BurnState::Idle, trend, f(milli));
    assert_eq!(next(TempChangeType::RisingFast, 150_001), BurnState::Startup);
    assert_eq!(next(TempChangeType::RisingFast, 150_000), BurnState::Idle);
    assert_eq!(next(TempChangeType::RisingFast, 135_000), BurnState::Idle);
    assert_eq!(next(TempChangeType::Stable, 600_000), BurnState::Idle);
    assert_eq!(next(TempChangeType::Falling, 600_000), BurnState::Idle);
}

#[test]
fn startup_transitions() {
    let config = StoveConfig::default();
    let next = |trend, milli| config.classify_state(BurnState::Startup, trend, f(milli));
    assert_eq!(next(TempChangeType::Falling, 400_001), BurnState::ActiveBurn);
    assert_eq!(next(TempChangeType::Stable, 401_000), BurnState::ActiveBurn);
    assert_eq!(next(TempChangeType::Falling, 400_000), BurnState::Coaling);
    assert_eq!(next(TempChangeType::Stable, 400_000), BurnState::Startup);
    assert_eq!(next(TempChangeType::RisingFast, 200_000), BurnState::Startup);
    assert_eq!(next(TempChangeType::Falling, 100_000), BurnState::Coaling);
}

#[test]
fn active_burn_transitions() {
    let config = StoveConfig::default();
    let next = |trend, milli| config.classify_state(BurnState::ActiveBurn, trend, f(milli));
    assert_eq!(next(TempChangeType::Falling, 349_999), BurnState::Coaling);
    assert_eq!(next(TempChangeType::Falling, 350_000), BurnState::ActiveBurn);
    assert_eq!(next(TempChangeType::Falling, 399_000), BurnState::ActiveBurn);
    assert_eq!(next(TempChangeType::Stable, 100_000), BurnState::ActiveBurn);
    assert_eq!(next(TempChangeType::RisingFast, 100_000), BurnState::ActiveBurn);
}

#[test]
fn coaling_transitions() {
    let config = StoveConfig::default();
    let next = |trend, milli| config.classify_state(BurnState::Coaling, trend, f(milli));
    assert_eq!(next(TempChangeType::Stable, 149_999), BurnState::Idle);
    assert_eq!(next(TempChangeType::Stable, 150_000), BurnState::Coaling);
    assert_eq!(next(TempChangeType::Falling, 100_000), BurnState::Coaling);
    assert_eq!(next(TempChangeType::RisingFast, 100_000), BurnState::Startup);
    assert_eq!(next(TempChangeType::RisingFast, 500_000), BurnState::Startup);
    assert_eq!(next(TempChangeType::Stable, 500_000), BurnState::Coaling);
}

#[test]
fn overheat_transitions() {
    let config = StoveConfig::default();
    let next = |trend, milli| config.classify_state(BurnState::Overheat, trend, f(milli));
    for trend in TRENDS {
        assert_eq!(next(trend, 399_999), BurnState::ActiveBurn);
        assert_eq!(next(trend, 400_000), BurnState::Overheat);
        assert_eq!(next(trend, 650_000), BurnState::Overheat);
    }
}

#[test]
fn only_phases_that_can_follow_do() {
    let config = StoveConfig::default();
    let allowed = |state: BurnState, next: BurnState| {
        next == state
            || next == BurnState::Overheat
            || matches!(
                (state, next),
                (BurnState::Idle, BurnState::Startup)
                    | (BurnState::Startup, BurnState::ActiveBurn)
                    | (BurnState::Startup, BurnState::Coaling)
                    | (BurnState::ActiveBurn, BurnState::Coaling)
                    | (BurnState::Coaling, BurnState::Idle)
                    | (BurnState::Coaling, BurnState::Startup)
                    | (BurnState::Overheat, BurnState::ActiveBurn)
            )
    };
    for state in STATES {
        for trend in TRENDS {
            let mut milli = 0;
            while milli <= 900_000 {
                assert!(allowed(state, config.classify_state(state, trend, f(milli))));
                milli += 12_500;
            }
        }
    }
}

#[test]
fn the_rule_reads_the_thresholds_it_is_given() {
    let config = StoveConfig {
        idle_threshold: Temperature::from_celsius(50_000),
        active_threshold: Temperature::from_celsius(200_000),
        active_exit_threshold: Temperature::from_celsius(180_000),
        overheat_threshold: Temperature::from_celsius(300_000),
        rising_fast_rate: per_minute(10_000),
        falling_rate: per_minute(-10_000),
        stable_rate: per_minute(0),
    };
    assert_eq!(config.classify_rate(Some(per_minute(5_001))), TempChangeType::Stable);
    assert_eq!(config.classify_rate(Some(per_minute(10_001))), TempChangeType::RisingFast);
    assert_eq!(config.classify_rate(Some(per_minute(-10_001))), TempChangeType::Falling);
    assert_eq!(
        config.classify_state(
            BurnState::Idle,
            TempChangeType::RisingFast,
            Temperature::from_celsius(50_001)
        ),
        BurnState::Startup
    );
    assert_eq!(
        config.classify_state(
            BurnState::Idle,
            TempChangeType::RisingFast,
            Temperature::from_celsius(300_001)
        ),
        BurnState::Overheat
    );
    assert_eq!(
        config.classify_state(
            BurnState::ActiveBurn,
            TempChangeType::Falling,
            Temperature::from_celsius(179_999)
        ),
        BurnState::Coaling
    );
}
