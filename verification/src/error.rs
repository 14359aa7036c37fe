//! The failures that end a scan before it has polled.

use vstd::prelude::*;
use vstd::string::StringExecFns;

verus! {

/// A scan failure, as mathematical values.
pub enum ErrorModel {
    DaemonUnavailable { cause: Seq<char> },
    SubscriptionFailed { cause: Seq<char> },
}

/// The text under which a failure is shown to the caller.
pub open spec fn error_message(error: ErrorModel) -> Seq<char> {
    match error {
        ErrorModel::DaemonUnavailable { cause } => "mDNS Error: "@ + cause,
        ErrorModel::SubscriptionFailed { cause } => cause,
    }
}

/// Why a scan produced no list.
#[derive(Clone, Debug, PartialEq, Eq)]
pub enum DiscoveryError {
    /// The discovery daemon could not be created.
    DaemonUnavailable { cause: String },
    /// The daemon could not open the subscription for the service type.
    SubscriptionFailed { cause: String },
}

impl View for DiscoveryError {
    type V = ErrorModel;

    open spec fn view(&self) -> ErrorModel {
        match self {
            DiscoveryError::DaemonUnavailable { cause } => ErrorModel::DaemonUnavailable {
                cause: cause@,
            },
            DiscoveryError::SubscriptionFailed { cause } => ErrorModel::SubscriptionFailed {
                cause: cause@,
            },
        }
    }
}

impl DiscoveryError {
    /// The text under which the failure is shown to the caller.
    pub fn message(&self) -> (text: String)
        ensures
            text@ == error_message(self@),
    {
        match self {
            DiscoveryError::DaemonUnavailable { cause } => {
                let mut text = String::from_str("mDNS Error: ");
                text.append(cause.as_str());
                text
            },
            DiscoveryError::SubscriptionFailed { cause } => cause.clone(),
        }
    }
}

} // verus!
