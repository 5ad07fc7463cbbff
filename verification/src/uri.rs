//! Destination descriptors: the parts of a target URI that connection
//! establishment reads, and the per-attempt destination that carries an
//! optional pre-resolved proxy decision.

use vstd::prelude::*;

use crate::proxy::Intercepted;

verus! {

/// The scheme of a target or proxy URI, as far as connection
/// establishment distinguishes schemes: plaintext HTTP, encrypted
/// HTTPS, the four SOCKS proxy variants, and everything else.
#[derive(Clone, Copy, Debug, PartialEq, Eq, Structural)]
pub enum Scheme {
    Http,
    Https,
    Socks4,
    Socks4a,
    Socks5,
    Socks5h,
    Other,
}

impl Scheme {
    /// True for the SOCKS family of proxy schemes.
    pub open spec fn spec_is_socks(self) -> bool {
        self == Scheme::Socks4 || self == Scheme::Socks4a || self == Scheme::Socks5
            || self == Scheme::Socks5h
    }

    /// Whether this scheme selects the SOCKS tunnel branch of the dispatcher.
    pub fn is_socks(&self) -> (r: bool)
        ensures
            r == self.spec_is_socks(),
    {
        matches!(self, Scheme::Socks4 | Scheme::Socks4a | Scheme::Socks5 | Scheme::Socks5h)
    }

    /// The port a URI of this scheme addresses when it names none itself.
    pub open spec fn spec_default_port(self) -> u16 {
        if self == Scheme::Https {
            443
        } else if self.spec_is_socks() {
            1080
        } else {
            80
        }
    }

    /// Default port of the scheme: 443 for HTTPS, 1080 for the SOCKS
    /// variants, 80 otherwise.
    pub fn default_port(&self) -> (r: u16)
        ensures
            r == self.spec_default_port(),
    {
        if matches!(self, Scheme::Https) {
            443
        } else if self.is_socks() {
            1080
        } else {
            80
        }
    }
}

/// A URI reduced to what connection establishment reads: the scheme,
/// the host, and an optional explicit port.
#[derive(Debug)]
pub struct Uri {
    pub scheme: Scheme,
    pub host: Option<String>,
    pub port: Option<u16>,
}

impl Uri {
    pub fn new(scheme: Scheme, host: Option<String>, port: Option<u16>) -> (r: Uri)
        ensures
            r.scheme == scheme,
            r.host == host,
            r.port == port,
    {
        Uri { scheme, host, port }
    }

    /// The explicit port, or the scheme's default.
    pub open spec fn spec_effective_port(self) -> u16 {
        match self.port {
            Some(p) => p,
            None => self.scheme.spec_default_port(),
        }
    }

    pub fn effective_port(&self) -> (r: u16)
        ensures
            r == self.spec_effective_port(),
    {
        match self.port {
            Some(p) => p,
            None => self.scheme.default_port(),
        }
    }

    /// A fresh URI equal to this one.
    pub fn duplicate(&self) -> (r: Uri)
        ensures
            r == *self,
    {
        let host: Option<String> = match &self.host {
            Some(h) => Some(h.clone()),
            None => None,
        };
        Uri { scheme: self.scheme, host, port: self.port }
    }
}

/// The destination of one connection attempt: the target URI plus an
/// optional proxy decision resolved upstream. The dispatcher consumes
/// it, taking the pre-resolved decision first and rewriting the URI
/// when a plaintext proxy stands in for the origin.
#[derive(Debug)]
pub struct Destination {
    pub uri: Uri,
    pub intercepted: Option<Intercepted>,
}

impl Destination {
    pub fn new(uri: Uri) -> (r: Destination)
        ensures
            r.uri == uri,
            r.intercepted is None,
    {
        Destination { uri, intercepted: None }
    }

    pub fn uri(&self) -> (r: &Uri)
        ensures
            r == &self.uri,
    {
        &self.uri
    }

    /// Overwrite the target URI; used when a plaintext proxy rewrites
    /// the request target so the transport connects to the proxy.
    pub fn set_uri(&mut self, uri: Uri)
        ensures
            final(self).uri == uri,
            final(self).intercepted == old(self).intercepted,
    {
        self.uri = uri;
    }

    /// Record a proxy decision resolved upstream of the dispatcher.
    pub fn set_proxy_intercepted(&mut self, intercepted: Intercepted)
        ensures
            final(self).uri == old(self).uri,
            final(self).intercepted == Some(intercepted),
    {
        self.intercepted = Some(intercepted);
    }

    /// Remove and return the pre-resolved proxy decision, if any.
    pub fn take_proxy_intercepted(&mut self) -> (r: Option<Intercepted>)
        ensures
            r == old(self).intercepted,
            final(self).uri == old(self).uri,
            final(self).intercepted is None,
    {
        self.intercepted.take()
    }
}

} // verus!
