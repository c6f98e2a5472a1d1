//! The ways in which a request to this library can be turned down.

use vstd::prelude::*;

verus! {

/// Why a lookup, a construction step or a transition was refused.
#[derive(Debug, Copy, Clone, PartialEq, Eq, Hash, Structural)]
pub enum DeviceError {
    /// No action is registered under the given name or identifier.
    NotFound,
    /// The action needs a numeric argument and none was supplied.
    MissingArgument,
    /// An entry of a list of available actions carries a payload other than
    /// its placeholder.
    Payload,
    /// An index lies beyond the last active slot of the duty-cycle table.
    Range,
    /// The duty-cycle table is malformed.
    Invariant,
    /// The device does not offer the requested action.
    NotAvailable,
}

impl DeviceError {
    /// The text that `message` returns for each error.
    pub open spec fn text(self) -> Seq<char> {
        match self {
            DeviceError::NotFound => "No action is registered under that name or identifier"@,
            DeviceError::MissingArgument => "No target was given"@,
            DeviceError::Payload => "An available action must carry its placeholder payload"@,
            DeviceError::Range => "The index must not be greater than the max duty cycle index"@,
            DeviceError::Invariant => "Within the array of duty cycles, there mustn't be a Some value that follows a None, and the first must be a Some"@,
            DeviceError::NotAvailable => "Action not available for device"@,
        }
    }

    /// A sentence for a person to read.
    pub fn message(&self) -> (text: &'static str)
        ensures
            text@ == self.text(),
    {
        match self {
            DeviceError::NotFound => "No action is registered under that name or identifier",
            DeviceError::MissingArgument => "No target was given",
            DeviceError::Payload => "An available action must carry its placeholder payload",
            DeviceError::Range => "The index must not be greater than the max duty cycle index",
            DeviceError::Invariant => "Within the array of duty cycles, there mustn't be a Some value that follows a None, and the first must be a Some",
            DeviceError::NotAvailable => "Action not available for device",
        }
    }
}

} // verus!
