//! One turn of the sampling loop: what the monitor does with the outcome of
//! a sensor reading, and what it hands the caller to publish.
//!
//! The caller reads the sensor and the clock, hands both in, and publishes
//! what comes back. A reading that failed leaves the monitor as it was.

use vstd::prelude::*;
use crate::classifier::BurnState;
use crate::state_machine::StoveStateMachine;
use crate::temperature::Temperature;

verus! {

/// What one turn of the sampling loop gives the caller to publish.
#[derive(Debug)]
pub enum Observation {
    /// The sensor gave a temperature and the monitor took it.
    Sample {
        /// The temperature that was read.
        temperature: Temperature,
        /// The phase after the sample.
        state: BurnState,
        /// Whether the sample changed the phase.
        state_changed: bool,
        /// How long the phase has lasted, in whole seconds.
        seconds_in_state: u64,
    },
    /// The sensor failed; the monitor was not touched.
    SensorError {
        /// What the sensor said.
        message: String,
    },
}

impl Observation {
    /// The health that goes out with a sample: the device is online. A
    /// failed reading carries none.
    pub fn status(&self) -> (status: Option<&'static str>)
        ensures
            status is Some <==> self is Sample,
            status matches Some(text) ==> text@ == "online"@,
    {
        match self {
            Observation::Sample { .. } => Some("online"),
            Observation::SensorError { .. } => None,
        }
    }
}

impl StoveStateMachine {
    /// Takes the outcome of one sensor reading at `now`.
    ///
    /// A temperature is taken as a sample, and what is to be published is
    /// the temperature, the phase after the sample and how long it has
    /// lasted. A failure is handed back as it came and the monitor stays as
    /// it was.
    pub fn observe(&mut self, reading: Result<Temperature, String>, now: u64) -> (seen:
        Observation)
        ensures
            match reading {
                Ok(temperature) => {
                    &&& final(self)@ == old(self)@.step(temperature@, now as int)
                    &&& seen == (Observation::Sample {
                        temperature,
                        state: final(self)@.state,
                        state_changed: final(self)@.state != old(self)@.state,
                        seconds_in_state: (final(self)@.time_in_state(now as int) / 1_000) as u64,
                    })
                },
                Err(message) => {
                    &&& final(self)@ == old(self)@
                    &&& seen == (Observation::SensorError { message })
                },
            },
    {
        match reading {
            Ok(temperature) => {
                let state_changed = self.update(temperature, now);
                Observation::Sample {
                    temperature,
                    state: self.current_state(),
                    state_changed,
                    seconds_in_state: self.time_in_state(now) / 1_000,
                }
            },
            Err(message) => Observation::SensorError { message },
        }
    }
}

} // verus!
