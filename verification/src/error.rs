//! The ways in which a run can fail.

use vstd::prelude::*;
use vstd::string::StringExecFns;

verus! {

/// Why a run was abandoned. Every kind is fatal: nothing is retried.
#[derive(Clone, Copy, Debug, PartialEq, Eq, Structural)]
pub enum LayoutError {
    /// No saved preferences were found; setup has to run first.
    ConfigurationAbsent,
    /// The number of connected displays is not two.
    TopologyUnsupported,
    /// Neither connected display is the saved default.
    NoDefaultMatch,
    /// A mode name or a mode index that names no mode.
    InvalidModeInput,
    /// Querying the displays, applying a directive, notifying or saving failed.
    ExternalCapabilityFailure,
}

impl LayoutError {
    /// The diagnostic shown to the user for this kind of failure.
    pub open spec fn spec_message(self) -> Seq<char> {
        match self {
            LayoutError::ConfigurationAbsent => "No saved configuration found, run setup first"@,
            LayoutError::TopologyUnsupported => "HyprDisplay can only handle two monitors at a time"@,
            LayoutError::NoDefaultMatch => "No default monitor found, run setup again"@,
            LayoutError::InvalidModeInput => "Invalid monitor mode"@,
            LayoutError::ExternalCapabilityFailure => "The compositor session could not be reached or updated"@,
        }
    }

    pub fn message(&self) -> (text: String)
        ensures
            text@ == self.spec_message(),
    {
        match self {
            LayoutError::ConfigurationAbsent => String::from_str(
                "No saved configuration found, run setup first",
            ),
            LayoutError::TopologyUnsupported => String::from_str(
                "HyprDisplay can only handle two monitors at a time",
            ),
            LayoutError::NoDefaultMatch => String::from_str(
                "No default monitor found, run setup again",
            ),
            LayoutError::InvalidModeInput => String::from_str("Invalid monitor mode"),
            LayoutError::ExternalCapabilityFailure => String::from_str(
                "The compositor session could not be reached or updated",
            ),
        }
    }
}

} // verus!
