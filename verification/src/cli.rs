//! What a command line decides beyond the configuration itself: how long a
//! request may take, and what the operator is told when the server does not
//! start.

use crate::server_config::{duration_from_secs, DEFAULT_TIMEOUT_SECS};
use std::time::Duration;
use vstd::prelude::*;

verus! {

/// The timeout of requests: the configured one, or [`DEFAULT_TIMEOUT_SECS`]
/// seconds where none is configured.
pub fn request_timeout(configured: Option<Duration>) -> (timeout: Duration)
    ensures
        timeout == match configured {
            Some(configured) => configured,
            None => duration_from_secs(DEFAULT_TIMEOUT_SECS),
        },
{
    match configured {
        Some(configured) => configured,
        None => Duration::from_secs(DEFAULT_TIMEOUT_SECS),
    }
}

/// What the operator is told when the server failed to start: the message of
/// the protocol error where the failure carries one, else the description of
/// the failure.
pub fn start_failure_report(protocol_message: Option<String>, description: String) -> (report:
    String)
    ensures
        report == match protocol_message {
            Some(message) => message,
            None => description,
        },
{
    match protocol_message {
        Some(message) => message,
        None => description,
    }
}

} // verus!
