//! Proxy interception: the outcome of proxy matching for one attempt,
//! and the ordered, first-match-wins rules that produce it.

use vstd::prelude::*;

use crate::uri::{Scheme, Uri};

verus! {

/// A proxy decision: the proxy's URI, an optional ready-made basic-auth
/// header value for HTTP tunnelling, an optional raw credential pair for
/// tunnel protocols that do not use HTTP auth headers, and optional
/// custom headers to send with a CONNECT request. Immutable once
/// produced; it lives for a single connection attempt.
#[derive(Debug)]
pub struct Intercepted {
    pub uri: Uri,
    pub basic_auth: Option<String>,
    pub raw_auth: Option<(String, String)>,
    pub custom_headers: Option<Vec<(String, String)>>,
}

impl Intercepted {
    /// Two interceptions that agree on every field; header lists are
    /// compared by their contents.
    pub open spec fn spec_eq(self, other: Intercepted) -> bool {
        &&& self.uri == other.uri
        &&& self.basic_auth == other.basic_auth
        &&& self.raw_auth == other.raw_auth
        &&& match (self.custom_headers, other.custom_headers) {
            (Some(a), Some(b)) => a@ == b@,
            (None, None) => true,
            _ => false,
        }
    }

    /// A fresh interception that agrees with this one on every field.
    pub fn duplicate(&self) -> (r: Intercepted)
        ensures
            r.spec_eq(*self),
            r.uri == self.uri,
    {
        let basic_auth: Option<String> = match &self.basic_auth {
            Some(s) => Some(s.clone()),
            None => None,
        };
        let raw_auth: Option<(String, String)> = match &self.raw_auth {
            Some(p) => Some((p.0.clone(), p.1.clone())),
            None => None,
        };
        let custom_headers: Option<Vec<(String, String)>> = match &self.custom_headers {
            Some(hs) => Some(duplicate_headers(hs)),
            None => None,
        };
        Intercepted { uri: self.uri.duplicate(), basic_auth, raw_auth, custom_headers }
    }
}

/// A fresh header list with the same pairs.
pub fn duplicate_headers(hs: &Vec<(String, String)>) -> (r: Vec<(String, String)>)
    ensures
        r@ == hs@,
{
    let mut r: Vec<(String, String)> = Vec::new();
    let mut i: usize = 0;
    while i < hs.len()
        invariant
            i <= hs.len(),
            r@ == hs@.take(i as int),
        decreases hs.len() - i,
    {
        let name = hs[i].0.clone();
        let value = hs[i].1.clone();
        r.push((name, value));
        assert(r@ =~= hs@.take(i as int + 1));
        i = i + 1;
    }
    assert(hs@.take(hs.len() as int) =~= hs@);
    r
}

/// Which destination schemes a rule intercepts.
#[derive(Clone, Copy, Debug, PartialEq, Eq, Structural)]
pub enum MatchKind {
    /// Every destination.
    All,
    /// Plaintext HTTP destinations only.
    Http,
    /// Encrypted HTTPS destinations only.
    Https,
}

/// One proxy rule: the schemes it intercepts, the hosts its no-proxy
/// list exempts, and the interception it produces. Rules are shared
/// read-only across attempts and evaluated in configured order,
/// first match wins.
#[derive(Debug)]
pub struct ProxyMatcher {
    pub kind: MatchKind,
    pub no_proxy: Vec<String>,
    pub interception: Intercepted,
}

impl ProxyMatcher {
    /// Whether the rule's scheme filter admits this scheme.
    pub open spec fn spec_kind_permits(self, scheme: Scheme) -> bool {
        match self.kind {
            MatchKind::All => true,
            MatchKind::Http => scheme == Scheme::Http,
            MatchKind::Https => scheme == Scheme::Https,
        }
    }

    /// Whether the no-proxy list exempts the URI's host.
    pub open spec fn spec_host_exempt(self, uri: Uri) -> bool {
        match uri.host {
            Some(h) => exists|i: int| 0 <= i < self.no_proxy@.len() && self.no_proxy@[i]@ == h@,
            None => false,
        }
    }

    /// Whether this rule intercepts the URI.
    pub open spec fn spec_matches(self, uri: Uri) -> bool {
        self.spec_kind_permits(uri.scheme) && !self.spec_host_exempt(uri)
    }

    /// Evaluate the rule against a destination URI: the rule's
    /// interception exactly when the scheme filter admits the URI and
    /// the no-proxy list does not exempt its host.
    pub fn intercept(&self, uri: &Uri) -> (r: Option<Intercepted>)
        ensures
            r is Some <==> self.spec_matches(*uri),
            r matches Some(i) ==> i.spec_eq(self.interception),
    {
        let permits = match self.kind {
            MatchKind::All => true,
            MatchKind::Http => matches!(uri.scheme, Scheme::Http),
            MatchKind::Https => matches!(uri.scheme, Scheme::Https),
        };
        if !permits {
            return None;
        }
        if let Some(h) = &uri.host {
            let mut i: usize = 0;
            while i < self.no_proxy.len()
                invariant
                    i <= self.no_proxy.len(),
                    uri.host matches Some(hh) && hh == h,
                    forall|j: int| 0 <= j < i ==> self.no_proxy@[j]@ != h@,
                decreases self.no_proxy.len() - i,
            {
                if self.no_proxy[i].eq(h) {
                    return None;
                }
                i = i + 1;
            }
        }
        Some(self.interception.duplicate())
    }
}

/// The first rule of the ordered list that matches the URI.
pub open spec fn spec_first_match(rules: Seq<ProxyMatcher>, uri: Uri) -> Option<ProxyMatcher>
    decreases rules.len(),
{
    if rules.len() == 0 {
        None
    } else if rules[0].spec_matches(uri) {
        Some(rules[0])
    } else {
        spec_first_match(rules.drop_first(), uri)
    }
}

/// Scan the rules in order and produce the first matching rule's
/// interception, or none.
pub fn first_match(rules: &Vec<ProxyMatcher>, uri: &Uri) -> (r: Option<Intercepted>)
    ensures
        r is Some <==> spec_first_match(rules@, *uri) is Some,
        r matches Some(i) ==> spec_first_match(rules@, *uri) matches Some(m) && i.spec_eq(
            m.interception,
        ),
{
    proof {
        assert(rules@.skip(0) =~= rules@);
    }
    let mut i: usize = 0;
    while i < rules.len()
        invariant
            i <= rules.len(),
            spec_first_match(rules@, *uri) == spec_first_match(rules@.skip(i as int), *uri),
        decreases rules.len() - i,
    {
        proof {
            assert(rules@.skip(i as int)[0] == rules@[i as int]);
        }
        if let Some(found) = rules[i].intercept(uri) {
            return Some(found);
        }
        proof {
            assert(rules@.skip(i as int).drop_first() =~= rules@.skip(i as int + 1));
        }
        i = i + 1;
    }
    None
}

} // verus!
