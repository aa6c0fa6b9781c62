//! The failures that end the program, and what is reported for each.

use vstd::prelude::*;
use vstd::string::StringExecFns;

verus! {

/// A failure during start-up. Each one is fatal.
#[derive(Debug, PartialEq, Eq)]
pub enum MonitorError {
    /// No device has a Num Lock or a Caps Lock LED.
    DeviceNotFound,
    /// The chosen device could not be opened; the text is the system's reason.
    DeviceOpenFailure(String),
    /// The opened device did not report its LEDs; the text is the system's
    /// reason.
    InitialStateQueryFailure(String),
}

impl MonitorError {
    /// The message of the failure.
    pub open spec fn message_text(self) -> Seq<char> {
        match self {
            MonitorError::DeviceNotFound => "No device found"@,
            MonitorError::DeviceOpenFailure(reason) => reason@,
            MonitorError::InitialStateQueryFailure(reason) => reason@,
        }
    }

    /// The line written to standard error: `Error: ` and the message.
    pub open spec fn diagnostic_text(self) -> Seq<char> {
        "Error: "@ + self.message_text()
    }

    /// The message of the failure.
    pub fn message(&self) -> (text: String)
        ensures
            text@ == self.message_text(),
    {
        match self {
            MonitorError::DeviceNotFound => String::from_str("No device found"),
            MonitorError::DeviceOpenFailure(reason) => reason.clone(),
            MonitorError::InitialStateQueryFailure(reason) => reason.clone(),
        }
    }

    /// The line to write to standard error before the process exits.
    pub fn diagnostic(&self) -> (text: String)
        ensures
            text@ == self.diagnostic_text(),
    {
        let mut text = String::from_str("Error: ");
        let message = self.message();
        text.append(message.as_str());
        text
    }

    /// The status with which the process exits after the failure: always 1.
    pub fn exit_status(&self) -> (status: i32)
        ensures
            status == 1,
    {
        1
    }
}

/// What is reported where no device has a Num Lock or a Caps Lock LED.
pub proof fn lemma_device_not_found_diagnostic()
    ensures
        MonitorError::DeviceNotFound.diagnostic_text() == "Error: No device found"@,
{
    reveal_strlit("Error: ");
    reveal_strlit("No device found");
    reveal_strlit("Error: No device found");
    assert(MonitorError::DeviceNotFound.diagnostic_text() =~= "Error: No device found"@);
}

} // verus!
