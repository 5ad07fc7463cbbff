//! Classification of one attempt into a concrete connect plan: where
//! the raw TCP connect goes, which tunnel is negotiated with which
//! credentials, which host the TLS handshake verifies, how the socket's
//! delay setting is toggled around the handshake, and how the finished
//! connection is tagged. The surrounding runtime executes the plan step
//! by step and reports the outcomes back to the dispatcher.

use vstd::prelude::*;

use crate::connect::{spec_resolved_interception, ConnectorService};
use crate::error::ConnectError;
use crate::proxy::first_match;
use crate::uri::{Destination, Scheme};

verus! {

/// Which tunnel, if any, the attempt negotiates after the raw connect.
#[derive(Debug)]
pub enum PlannedTunnel {
    /// No tunnel: the raw transport is used as connected.
    Direct,
    /// An HTTP CONNECT exchange with the proxy, with the optional
    /// ready-made basic-auth header value and custom headers.
    HttpConnect { auth: Option<String>, headers: Option<Vec<(String, String)>> },
    /// A SOCKS negotiation of the given variant, with the optional raw
    /// credential pair.
    Socks { version: Scheme, raw_auth: Option<(String, String)> },
}

/// Whether two planned tunnels agree; header lists are compared by
/// their contents.
pub open spec fn tunnel_matches(a: PlannedTunnel, b: PlannedTunnel) -> bool {
    match (a, b) {
        (PlannedTunnel::Direct, PlannedTunnel::Direct) => true,
        (
            PlannedTunnel::HttpConnect { auth: aa, headers: ah },
            PlannedTunnel::HttpConnect { auth: ba, headers: bh },
        ) => aa == ba && match (ah, bh) {
            (Some(x), Some(y)) => x@ == y@,
            (None, None) => true,
            _ => false,
        },
        (
            PlannedTunnel::Socks { version: av, raw_auth: aa },
            PlannedTunnel::Socks { version: bv, raw_auth: ba },
        ) => av == bv && aa == ba,
        _ => false,
    }
}

/// The classified shape of one attempt, as the runtime must execute it.
#[derive(Debug)]
pub struct ConnectPlan {
    /// Where the raw TCP connect goes: the origin, or the proxy.
    pub connect_host: String,
    pub connect_port: u16,
    /// The tunnel negotiated over the raw transport, if any.
    pub tunnel: PlannedTunnel,
    /// The host the origin TLS handshake verifies; nothing when the
    /// effective destination is plaintext.
    pub tls_host: Option<String>,
    /// Whether the link to the proxy is itself TLS, under a CONNECT
    /// tunnel through an encrypted proxy.
    pub proxy_tls: bool,
    /// The proxy-form tag of the finished connection.
    pub is_proxy: bool,
    /// The socket's delay setting while an origin handshake runs: delay
    /// is switched off for the handshake unless the caller asked for it
    /// to stay on.
    pub nodelay_during_handshake: bool,
    /// The caller's delay setting, restored once the stream stands.
    pub nodelay_after: bool,
    /// The configured attempt timeout.
    pub timeout: Option<u64>,
}

/// Whether two plans agree; tunnels are compared by [`tunnel_matches`].
pub open spec fn plan_matches(a: ConnectPlan, b: ConnectPlan) -> bool {
    &&& a.connect_host == b.connect_host
    &&& a.connect_port == b.connect_port
    &&& tunnel_matches(a.tunnel, b.tunnel)
    &&& a.tls_host == b.tls_host
    &&& a.proxy_tls == b.proxy_tls
    &&& a.is_proxy == b.is_proxy
    &&& a.nodelay_during_handshake == b.nodelay_during_handshake
    &&& a.nodelay_after == b.nodelay_after
    &&& a.timeout == b.timeout
}

/// The plan for a destination under a configuration, or the
/// classification error that dooms the attempt before any I/O: a
/// destination without the host that TLS or tunnel verification needs,
/// or an address-less URI the transport step could never connect.
pub open spec fn spec_plan(svc: ConnectorService, dst: Destination) -> Result<
    ConnectPlan,
    ConnectError,
> {
    match spec_resolved_interception(svc, dst) {
        None => match dst.uri.host {
            None => Err(ConnectError::Transport),
            Some(h) => Ok(
                ConnectPlan {
                    connect_host: h,
                    connect_port: dst.uri.spec_effective_port(),
                    tunnel: PlannedTunnel::Direct,
                    tls_host: if dst.uri.scheme == Scheme::Https {
                        Some(h)
                    } else {
                        None
                    },
                    proxy_tls: false,
                    is_proxy: false,
                    nodelay_during_handshake: svc.nodelay || dst.uri.scheme == Scheme::Https,
                    nodelay_after: svc.nodelay,
                    timeout: svc.timeout,
                },
            ),
        },
        Some(i) => if i.uri.scheme.spec_is_socks() {
            match i.uri.host {
                None => Err(ConnectError::Tunnel),
                Some(ph) => if dst.uri.scheme == Scheme::Https && dst.uri.host is None {
                    Err(ConnectError::UriBadHost)
                } else {
                    Ok(
                        ConnectPlan {
                            connect_host: ph,
                            connect_port: i.uri.spec_effective_port(),
                            tunnel: PlannedTunnel::Socks {
                                version: i.uri.scheme,
                                raw_auth: i.raw_auth,
                            },
                            tls_host: if dst.uri.scheme == Scheme::Https {
                                dst.uri.host
                            } else {
                                None
                            },
                            proxy_tls: false,
                            is_proxy: false,
                            nodelay_during_handshake: svc.nodelay,
                            nodelay_after: svc.nodelay,
                            timeout: svc.timeout,
                        },
                    )
                },
            }
        } else if dst.uri.scheme == Scheme::Https {
            match dst.uri.host {
                None => Err(ConnectError::UriBadHost),
                Some(h) => match i.uri.host {
                    None => Err(ConnectError::Transport),
                    Some(ph) => Ok(
                        ConnectPlan {
                            connect_host: ph,
                            connect_port: i.uri.spec_effective_port(),
                            tunnel: PlannedTunnel::HttpConnect {
                                auth: i.basic_auth,
                                headers: i.custom_headers,
                            },
                            tls_host: Some(h),
                            proxy_tls: i.uri.scheme == Scheme::Https,
                            is_proxy: false,
                            nodelay_during_handshake: svc.nodelay,
                            nodelay_after: svc.nodelay,
                            timeout: svc.timeout,
                        },
                    ),
                },
            }
        } else {
            match i.uri.host {
                None => Err(ConnectError::Transport),
                Some(ph) => Ok(
                    ConnectPlan {
                        connect_host: ph,
                        connect_port: i.uri.spec_effective_port(),
                        tunnel: PlannedTunnel::Direct,
                        tls_host: if i.uri.scheme == Scheme::Https {
                            Some(ph)
                        } else {
                            None
                        },
                        proxy_tls: false,
                        is_proxy: true,
                        nodelay_during_handshake: svc.nodelay || i.uri.scheme == Scheme::Https,
                        nodelay_after: svc.nodelay,
                        timeout: svc.timeout,
                    },
                ),
            }
        },
    }
}

impl ConnectorService {
    /// Classify a destination into the plan the runtime must execute.
    /// The plan agrees with [`spec_plan`]: the same classification the
    /// dispatcher's own sequences follow.
    pub fn plan(&self, dst: &Destination) -> (r: Result<ConnectPlan, ConnectError>)
        ensures
            r is Ok <==> spec_plan(*self, *dst) is Ok,
            r matches Ok(p) ==> spec_plan(*self, *dst) matches Ok(sp) && plan_matches(p, sp),
            r matches Err(e) ==> spec_plan(*self, *dst) matches Err(se) && e == se,
    {
        let picked = match &dst.intercepted {
            Some(i) => Some(i.duplicate()),
            None => first_match(&self.proxies, &dst.uri),
        };
        match picked {
            None => match &dst.uri.host {
                None => Err(ConnectError::Transport),
                Some(h) => Ok(
                    ConnectPlan {
                        connect_host: h.clone(),
                        connect_port: dst.uri.effective_port(),
                        tunnel: PlannedTunnel::Direct,
                        tls_host: if dst.uri.scheme == Scheme::Https {
                            Some(h.clone())
                        } else {
                            None
                        },
                        proxy_tls: false,
                        is_proxy: false,
                        nodelay_during_handshake: self.nodelay || dst.uri.scheme == Scheme::Https,
                        nodelay_after: self.nodelay,
                        timeout: self.timeout,
                    },
                ),
            },
            Some(i) => {
                if i.uri.scheme.is_socks() {
                    match &i.uri.host {
                        None => Err(ConnectError::Tunnel),
                        Some(ph) => {
                            if dst.uri.scheme == Scheme::Https && dst.uri.host.is_none() {
                                return Err(ConnectError::UriBadHost);
                            }
                            let tls_host = if dst.uri.scheme == Scheme::Https {
                                match &dst.uri.host {
                                    Some(h) => Some(h.clone()),
                                    None => None,
                                }
                            } else {
                                None
                            };
                            Ok(
                                ConnectPlan {
                                    connect_host: ph.clone(),
                                    connect_port: i.uri.effective_port(),
                                    tunnel: PlannedTunnel::Socks {
                                        version: i.uri.scheme,
                                        raw_auth: i.raw_auth,
                                    },
                                    tls_host,
                                    proxy_tls: false,
                                    is_proxy: false,
                                    nodelay_during_handshake: self.nodelay,
                                    nodelay_after: self.nodelay,
                                    timeout: self.timeout,
                                },
                            )
                        },
                    }
                } else if dst.uri.scheme == Scheme::Https {
                    match &dst.uri.host {
                        None => Err(ConnectError::UriBadHost),
                        Some(h) => match &i.uri.host {
                            None => Err(ConnectError::Transport),
                            Some(ph) => Ok(
                                ConnectPlan {
                                    connect_host: ph.clone(),
                                    connect_port: i.uri.effective_port(),
                                    tunnel: PlannedTunnel::HttpConnect {
                                        auth: i.basic_auth,
                                        headers: i.custom_headers,
                                    },
                                    tls_host: Some(h.clone()),
                                    proxy_tls: i.uri.scheme == Scheme::Https,
                                    is_proxy: false,
                                    nodelay_during_handshake: self.nodelay,
                                    nodelay_after: self.nodelay,
                                    timeout: self.timeout,
                                },
                            ),
                        },
                    }
                } else {
                    match &i.uri.host {
                        None => Err(ConnectError::Transport),
                        Some(ph) => Ok(
                            ConnectPlan {
                                connect_host: ph.clone(),
                                connect_port: i.uri.effective_port(),
                                tunnel: PlannedTunnel::Direct,
                                tls_host: if i.uri.scheme == Scheme::Https {
                                    Some(ph.clone())
                                } else {
                                    None
                                },
                                proxy_tls: false,
                                is_proxy: true,
                                nodelay_during_handshake: self.nodelay || i.uri.scheme
                                    == Scheme::Https,
                                nodelay_after: self.nodelay,
                                timeout: self.timeout,
                            },
                        ),
                    }
                }
            },
        }
    }
}

} // verus!
