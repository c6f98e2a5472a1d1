//! State of one PWM-driven device on a home-automation node: the actions it
//! understands, the duty cycle it currently selects, and the transitions
//! between them.

pub mod action;
pub mod device;
pub mod duty;
pub mod error;
pub mod group;
pub mod ident;
pub mod laws;
pub mod model;
pub mod text;

pub use crate::action::{action_synonyms, Action, ActionSynonyms};
pub use crate::device::Device;
pub use crate::error::DeviceError;
pub use crate::group::{device_groups, DeviceGroup, DeviceSynonyms};
pub use crate::model::DeviceView;
