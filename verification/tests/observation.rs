use woodstove_lib::{BurnState, Observation, StoveConfig, StoveStateMachine, Temperature};

#[test]
fn a_reading_is_taken_as_a_sample() {
    let mut sm = StoveStateMachine::new(StoveConfig::default(), 1_000);
    let temperature = Temperature::from_celsius(21_250);

    let seen = sm.observe(Ok(temperature), 13_999);

    match &seen {
        Observation::Sample { temperature: t, state, state_changed, seconds_in_state } => {
            assert_eq!(*t, temperature);
            assert_eq!(*state, BurnState::Idle);
            assert!(!*state_changed);
            assert_eq!(*seconds_in_state, 12);
        }
        Observation::SensorError { .. } => panic!("expected a sample, received {:?}", seen),
    }
    assert_eq!(seen.status(), Some("online"));
    assert_eq!(sm.last_temp(), Some(temperature));
    assert_eq!(sm.last_update_time(), 13_999);
}

#[test]
fn a_failed_reading_leaves_the_monitor_as_it_was() {
    let mut sm = StoveStateMachine::new(StoveConfig::default(), 1_000);
    sm.update(Temperature::from_fahrenheit(70_000), 2_000);
    sm.update(Temperature::from_fahrenheit(71_000), 12_000);
    let rate = sm.rate_of_change();

    let seen = sm.observe(Err(String::from("Sensor error: MissingThermocoupleFault")), 22_000);

    match &seen {
        Observation::SensorError { message } => {
            assert_eq!(message, "Sensor error: MissingThermocoupleFault")
        }
        Observation::Sample { .. } => panic!("expected an error, received {:?}", seen),
    }
    assert_eq!(seen.status(), None);
    assert_eq!(sm.current_state(), BurnState::Idle);
    assert_eq!(sm.last_temp(), Some(Temperature::from_fahrenheit(71_000)));
    assert_eq!(sm.last_update_time(), 12_000);
    assert_eq!(sm.rate_of_change(), rate);
    assert_eq!(sm.state_set_time(), 1_000);
}

#[test]
fn a_sample_that_changes_the_phase_says_so() {
    let mut sm = StoveStateMachine::new(StoveConfig::default(), 0);
    sm.observe(Ok(Temperature::from_fahrenheit(100_000)), 10_000);
    let seen = sm.observe(Ok(Temperature::from_fahrenheit(200_000)), 20_000);

    match seen {
        Observation::Sample { temperature, state, state_changed, seconds_in_state } => {
            assert_eq!(temperature, Temperature::from_fahrenheit(200_000));
            assert_eq!(state, BurnState::Startup);
            assert!(state_changed);
            assert_eq!(seconds_in_state, 0);
        }
        Observation::SensorError { .. } => panic!("expected a sample"),
    }
    assert_eq!(sm.current_state(), BurnState::Startup);

    let later = sm.observe(Ok(Temperature::from_fahrenheit(250_000)), 30_999);
    match later {
        Observation::Sample { state, state_changed, seconds_in_state, .. } => {
            assert_eq!(state, BurnState::Startup);
            assert!(!state_changed);
            assert_eq!(seconds_in_state, 10);
        }
        Observation::SensorError { .. } => panic!("expected a sample"),
    }
}
