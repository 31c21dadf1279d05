//! The failures that a command can report to its caller.

use crate::text::concat;
use vstd::prelude::*;
use vstd::string::StringExecFns;

verus! {

/// Why a message could not be handed to a worker.
#[derive(Debug, PartialEq, Eq)]
pub enum BridgeError {
    /// The service has no live worker.
    NotRunning { service: String },
    /// The worker's input refused the bytes; `reason` is what the write reported.
    WriteFailed { service: String, reason: String },
}

impl BridgeError {
    /// The sentence that describes the failure to a caller.
    pub open spec fn text(self) -> Seq<char> {
        match self {
            BridgeError::NotRunning { service } => "No bridge running for service '"@ + service@
                + "'"@,
            BridgeError::WriteFailed { service, reason } => "Failed to write to bridge '"@
                + service@ + "': "@ + reason@,
        }
    }

    /// Returns the sentence that describes the failure.
    pub fn message(&self) -> (sentence: String)
        ensures
            sentence@ == self.text(),
    {
        match self {
            BridgeError::NotRunning { service } => {
                let mut sentence = concat("No bridge running for service '", service.as_str());
                sentence.append("'");
                sentence
            },
            BridgeError::WriteFailed { service, reason } => {
                let mut sentence = concat("Failed to write to bridge '", service.as_str());
                sentence.append("': ");
                sentence.append(reason.as_str());
                sentence
            },
        }
    }
}

} // verus!
