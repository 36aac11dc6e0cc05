//! A monitor for a solid-fuel stove: it classifies the burn phase of the
//! stove from a stream of timed thermocouple samples.

pub mod classifier;
pub mod observation;
pub mod rounding;
pub mod state_machine;
pub mod temperature;

pub use classifier::{BurnState, StoveConfig, TempChangeType};
pub use observation::Observation;
pub use state_machine::StoveStateMachine;
pub use temperature::{RateOfChange, Temperature, TemperatureDelta};
