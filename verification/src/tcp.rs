//! The base TCP connector configuration: socket options and the
//! resolver capability the transport-connect step uses. The sockets
//! themselves are opened by the surrounding runtime; the dispatcher
//! only records what to open them with.

use vstd::prelude::*;

verus! {

/// The name-resolution capability handed in at construction. Lookups
/// are performed by the surrounding runtime; the dispatcher only
/// carries the capability to whichever step needs it.
#[derive(Clone, Copy, Debug, PartialEq, Eq, Structural)]
pub struct Resolver {}

/// Socket options for the plaintext transport-connect step. Durations
/// are in milliseconds.
#[derive(Debug)]
pub struct HttpConnector {
    pub resolver: Resolver,
    pub keepalive: Option<u64>,
    pub keepalive_interval: Option<u64>,
    pub keepalive_retries: Option<u32>,
    pub user_timeout: Option<u64>,
    pub connect_timeout: Option<u64>,
    pub interface: Option<String>,
    pub local_ipv4: Option<u32>,
    pub local_ipv6: Option<u128>,
    pub nodelay: bool,
    pub enforce_http: bool,
}

impl HttpConnector {
    /// A connector with the given resolver and no option set: no
    /// keepalive, no timeouts, no binding, delay left on, plaintext
    /// schemes enforced until told otherwise.
    pub fn new_with_resolver(resolver: Resolver) -> (r: HttpConnector)
        ensures
            r.resolver == resolver,
            r.keepalive is None,
            r.keepalive_interval is None,
            r.keepalive_retries is None,
            r.user_timeout is None,
            r.connect_timeout is None,
            r.interface is None,
            r.local_ipv4 is None,
            r.local_ipv6 is None,
            !r.nodelay,
            r.enforce_http,
    {
        HttpConnector {
            resolver,
            keepalive: None,
            keepalive_interval: None,
            keepalive_retries: None,
            user_timeout: None,
            connect_timeout: None,
            interface: None,
            local_ipv4: None,
            local_ipv6: None,
            nodelay: false,
            enforce_http: true,
        }
    }

    pub fn set_keepalive(&mut self, dur: Option<u64>)
        ensures
            *final(self) == (HttpConnector { keepalive: dur, ..*old(self) }),
    {
        self.keepalive = dur;
    }

    pub fn set_keepalive_interval(&mut self, dur: Option<u64>)
        ensures
            *final(self) == (HttpConnector { keepalive_interval: dur, ..*old(self) }),
    {
        self.keepalive_interval = dur;
    }

    pub fn set_keepalive_retries(&mut self, retries: Option<u32>)
        ensures
            *final(self) == (HttpConnector { keepalive_retries: retries, ..*old(self) }),
    {
        self.keepalive_retries = retries;
    }

    pub fn set_tcp_user_timeout(&mut self, dur: Option<u64>)
        ensures
            *final(self) == (HttpConnector { user_timeout: dur, ..*old(self) }),
    {
        self.user_timeout = dur;
    }

    pub fn set_connect_timeout(&mut self, dur: Option<u64>)
        ensures
            *final(self) == (HttpConnector { connect_timeout: dur, ..*old(self) }),
    {
        self.connect_timeout = dur;
    }

    pub fn set_interface(&mut self, iface: Option<String>)
        ensures
            *final(self) == (HttpConnector { interface: iface, ..*old(self) }),
    {
        self.interface = iface;
    }

    pub fn set_local_address(&mut self, v4: Option<u32>, v6: Option<u128>)
        ensures
            *final(self) == (HttpConnector { local_ipv4: v4, local_ipv6: v6, ..*old(self) }),
    {
        self.local_ipv4 = v4;
        self.local_ipv6 = v6;
    }

    pub fn set_nodelay(&mut self, enabled: bool)
        ensures
            *final(self) == (HttpConnector { nodelay: enabled, ..*old(self) }),
    {
        self.nodelay = enabled;
    }

    pub fn enforce_http(&mut self, enabled: bool)
        ensures
            *final(self) == (HttpConnector { enforce_http: enabled, ..*old(self) }),
    {
        self.enforce_http = enabled;
    }
}

} // verus!
