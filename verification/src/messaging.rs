//! What publishing to the message broker can fail with.

use vstd::prelude::*;

verus! {

/// Why a message could not be published.
#[derive(Debug)]
pub enum MessagingError {
    /// The broker refused or could not be reached.
    Backend(String),
    /// Messaging is switched off.
    Disabled,
}

impl MessagingError {
    /// The message the failure is reported with.
    pub fn message(&self) -> (m: String)
        ensures
            m@ == match self {
                MessagingError::Backend(detail) => "messaging error: "@ + detail@,
                MessagingError::Disabled => "messaging is disabled; set WIAB_NATS_ENABLED to publish"@,
            },
    {
        match self {
            MessagingError::Backend(detail) => String::from_str("messaging error: ").concat(
                detail.as_str(),
            ),
            MessagingError::Disabled => String::from_str(
                "messaging is disabled; set WIAB_NATS_ENABLED to publish",
            ),
        }
    }
}

} // verus!
