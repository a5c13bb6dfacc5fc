//! Which transport a server binds: the pipe of its own standard streams, or
//! a network listener.

use vstd::prelude::*;

verus! {

/// The address a network listener binds when no host is configured.
pub const LOOPBACK_HOST: &'static str = "127.0.0.1";

/// The port a network listener binds when no port is configured.
pub const DEFAULT_PORT: u16 = 8080;

/// The transport of a server. A server binds exactly one.
#[derive(Debug)]
pub enum Transport {
    /// The standard streams of the process.
    Stdio,
    /// A listener on the given host and port.
    Network { host: String, port: u16 },
}

/// The mathematical content of a [`Transport`].
pub enum TransportView {
    Stdio,
    Network { host: Seq<char>, port: u16 },
}

impl View for Transport {
    type V = TransportView;

    open spec fn view(&self) -> TransportView {
        match self {
            Transport::Stdio => TransportView::Stdio,
            Transport::Network { host, port } => TransportView::Network { host: host@, port: *port },
        }
    }
}

/// The host that a listener binds for a configured host: the loopback
/// address in place of an empty one.
pub open spec fn listen_host_of(host: Seq<char>) -> Seq<char> {
    if host.len() == 0 {
        LOOPBACK_HOST@
    } else {
        host
    }
}

/// The transport for a configured host and port: the pipe where neither is
/// configured, else the network, on the loopback address where no host or an
/// empty one is configured, and on [`DEFAULT_PORT`] where no port is.
pub open spec fn selected_transport(host: Option<String>, port: Option<u16>) -> TransportView {
    if host.is_none() && port.is_none() {
        TransportView::Stdio
    } else {
        TransportView::Network {
            host: match host {
                Some(host) => listen_host_of(host@),
                None => LOOPBACK_HOST@,
            },
            port: match port {
                Some(port) => port,
                None => DEFAULT_PORT,
            },
        }
    }
}

/// The host that a listener binds for a configured host.
pub fn listen_host(host: String) -> (bound: String)
    ensures
        bound@ == listen_host_of(host@),
{
    if host.as_str().is_empty() {
        LOOPBACK_HOST.to_owned()
    } else {
        host
    }
}

/// Selects the transport for a configured host and port.
pub fn select_transport(host: Option<String>, port: Option<u16>) -> (transport: Transport)
    ensures
        transport@ == selected_transport(host, port),
        host.is_none() && port.is_none() <==> transport is Stdio,
        host.is_none() && port.is_some() ==> transport@ == (TransportView::Network {
            host: LOOPBACK_HOST@,
            port: port.unwrap(),
        }),
{
    match (host, port) {
        (None, None) => Transport::Stdio,
        (host, port) => {
            let host = match host {
                Some(host) => listen_host(host),
                None => LOOPBACK_HOST.to_owned(),
            };
            let port = match port {
                Some(port) => port,
                None => DEFAULT_PORT,
            };
            Transport::Network { host, port }
        },
    }
}

} // verus!
