//! The status of a bridge and its canonical string form.

use crate::text::str_eq;
use vstd::prelude::*;

verus! {

/// What the registry knows of a bridge's connection.
#[derive(Debug, Clone, Copy, PartialEq, Eq, Structural)]
pub enum BridgeStatus {
    Disconnected,
    Connected,
    AuthNeeded,
}

impl BridgeStatus {
    /// The canonical lowercase name of a status.
    pub open spec fn name(self) -> Seq<char> {
        match self {
            BridgeStatus::Disconnected => "disconnected"@,
            BridgeStatus::Connected => "connected"@,
            BridgeStatus::AuthNeeded => "auth_needed"@,
        }
    }

    /// The status that a canonical name stands for, if it is one.
    pub open spec fn named(text: Seq<char>) -> Option<BridgeStatus> {
        if text == "auth_needed"@ {
            Some(BridgeStatus::AuthNeeded)
        } else if text == "connected"@ {
            Some(BridgeStatus::Connected)
        } else if text == "disconnected"@ {
            Some(BridgeStatus::Disconnected)
        } else {
            None
        }
    }

    /// Reads a status from its canonical name; any other text is no status.
    pub fn from_name(name: &str) -> (status: Option<BridgeStatus>)
        ensures
            status == BridgeStatus::named(name@),
    {
        if str_eq(name, "auth_needed") {
            Some(BridgeStatus::AuthNeeded)
        } else if str_eq(name, "connected") {
            Some(BridgeStatus::Connected)
        } else if str_eq(name, "disconnected") {
            Some(BridgeStatus::Disconnected)
        } else {
            None
        }
    }

    /// Returns the canonical name, used both inside the crate and at its boundary.
    pub fn as_str(&self) -> (text: &'static str)
        ensures
            text@ == self.name(),
    {
        match self {
            BridgeStatus::Disconnected => "disconnected",
            BridgeStatus::Connected => "connected",
            BridgeStatus::AuthNeeded => "auth_needed",
        }
    }
}

/// The three canonical names are pairwise different, so a name determines its
/// status: reading a status's own name back gives that status.
pub proof fn theorem_name_determines_status(status: BridgeStatus)
    ensures
        BridgeStatus::named(status.name()) == Some(status),
{
    reveal_strlit("disconnected");
    reveal_strlit("connected");
    reveal_strlit("auth_needed");
    assert("disconnected"@.len() == 12);
    assert("connected"@.len() == 9);
    assert("auth_needed"@.len() == 11);
}

} // verus!
