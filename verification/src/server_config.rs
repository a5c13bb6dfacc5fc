//! The configuration a server is started from, and its documented defaults.

use std::time::Duration;
use vstd::prelude::*;

verus! {

/// Name a server announces when none is configured.
pub const DEFAULT_NAME: &'static str = "mcp-utils";

/// Version a server announces when none is configured.
pub const DEFAULT_VERSION: &'static str = "0.1.0";

/// Seconds a request may take when no timeout is configured.
pub const DEFAULT_TIMEOUT_SECS: u64 = 60;

/// The duration that `Duration::from_secs` builds from a number of whole
/// seconds.
pub uninterp spec fn duration_from_secs(secs: u64) -> Duration;

/// `Duration::from_secs`: the result is a function of the number of seconds
/// alone. The standard library documents it as the duration of that many
/// whole seconds; it neither fails nor panics.
pub assume_specification[ Duration::from_secs ](secs: u64) -> (duration: Duration)
    ensures
        duration == duration_from_secs(secs),
;

/// What a server announces about itself, and how long a request may take.
#[derive(Debug)]
pub struct ServerConfig {
    pub name: String,
    pub title: String,
    pub version: String,
    pub instructions: String,
    pub timeout: Duration,
}

/// The mathematical content of a [`ServerConfig`].
pub struct ServerConfigView {
    pub name: Seq<char>,
    pub title: Seq<char>,
    pub version: Seq<char>,
    pub instructions: Seq<char>,
    pub timeout: Duration,
}

impl View for ServerConfig {
    type V = ServerConfigView;

    open spec fn view(&self) -> ServerConfigView {
        ServerConfigView {
            name: self.name@,
            title: self.title@,
            version: self.version@,
            instructions: self.instructions@,
            timeout: self.timeout,
        }
    }
}

/// The configuration of a server on which nothing was set: the default name
/// and version, an empty title, empty instructions and a timeout of
/// [`DEFAULT_TIMEOUT_SECS`] seconds.
pub open spec fn default_config() -> ServerConfigView {
    ServerConfigView {
        name: DEFAULT_NAME@,
        title: Seq::empty(),
        version: DEFAULT_VERSION@,
        instructions: Seq::empty(),
        timeout: duration_from_secs(DEFAULT_TIMEOUT_SECS),
    }
}

impl Clone for ServerConfig {
    fn clone(&self) -> (config: Self)
        ensures
            config@ == self@,
    {
        ServerConfig {
            name: self.name.clone(),
            title: self.title.clone(),
            version: self.version.clone(),
            instructions: self.instructions.clone(),
            timeout: self.timeout,
        }
    }
}

impl Default for ServerConfig {
    fn default() -> (config: Self)
        ensures
            config@ == default_config(),
    {
        ServerConfig {
            name: DEFAULT_NAME.to_owned(),
            title: String::new(),
            version: DEFAULT_VERSION.to_owned(),
            instructions: String::new(),
            timeout: Duration::from_secs(DEFAULT_TIMEOUT_SECS),
        }
    }
}

} // verus!
