//! Reaching Temporal: the server address, the TLS choice, and paging
//! through a workflow's history.
use vstd::prelude::*;
use crate::config::{ResolvedNamespace, Tls};
use crate::text::cat3;
use crate::wrappers::{has_host, parse_url, url_has_host, url_parses, ParsedUrl};

verus! {

/// TLS is on when the namespace has TLS settings or an API key.
pub open spec fn tls_enabled(ns: ResolvedNamespace) -> bool {
    ns.tls is Some || ns.api_key is Some
}

/// Whether connections to the namespace use TLS.
pub fn uses_tls(ns: &ResolvedNamespace) -> (r: bool)
    ensures
        r == tls_enabled(*ns),
        ns.tls is Some ==> r,
        ns.api_key is Some ==> r,
        ns.tls is None && ns.api_key is None ==> !r,
{
    ns.tls.is_some() || ns.api_key.is_some()
}

/// TLS is on whenever the namespace has TLS settings, and whenever it has an
/// API key; it is off only when it has neither.
pub proof fn law_tls_with_settings_or_key(ns: ResolvedNamespace)
    ensures
        ns.tls is Some ==> tls_enabled(ns),
        ns.api_key is Some ==> tls_enabled(ns),
        ns.tls is None && ns.api_key is None ==> !tls_enabled(ns),
{
}

/// Without a host of its own, the target is the host behind `https://` when
/// TLS is on and behind `http://` when it is off.
pub proof fn law_scheme_follows_tls(host: Seq<char>)
    ensures
        with_scheme(host, true) == "https://"@ + host,
        with_scheme(host, false) == "http://"@ + host,
{
    reveal_strlit("https");
    reveal_strlit("http");
    reveal_strlit("://");
    reveal_strlit("https://");
    reveal_strlit("http://");
    assert(with_scheme(host, true) =~= "https://"@ + host);
    assert(with_scheme(host, false) =~= "http://"@ + host);
}

/// How to set up TLS for a namespace.
#[derive(Debug, Clone)]
pub enum TlsPlan {
    /// Mutual TLS with the configured client certificate.
    ClientCertificate(Tls),
    /// TLS with the default settings, for an API key without TLS settings.
    ServerOnly,
    /// No TLS.
    Plain,
}

/// The TLS set-up for a namespace: its TLS settings where it has them,
/// default TLS where it only has an API key, and none otherwise.
pub fn tls_plan(ns: &ResolvedNamespace) -> (r: TlsPlan)
    ensures
        match ns.tls {
            Some(t) => r == TlsPlan::ClientCertificate(t),
            None => if ns.api_key is Some {
                r == TlsPlan::ServerOnly
            } else {
                r == TlsPlan::Plain
            },
        },
{
    match &ns.tls {
        Some(t) => TlsPlan::ClientCertificate(
            Tls {
                cert_path: t.cert_path.clone(),
                key_path: t.key_path.clone(),
                ca_path: match &t.ca_path {
                    Some(c) => Some(c.clone()),
                    None => None,
                },
            },
        ),
        None => if ns.api_key.is_some() {
            TlsPlan::ServerOnly
        } else {
            TlsPlan::Plain
        },
    }
}

/// A host that could not be made into a URL.
#[derive(Debug)]
pub struct TargetError {
    pub host: String,
}

impl TargetError {
    /// `invalid host '<host>'`.
    pub fn message(&self) -> (r: String)
        ensures
            r@ == "invalid host '"@ + self.host@ + "'"@,
    {
        cat3("invalid host '", self.host.as_str(), "'")
    }
}

/// The URL tried when the host is not a URL with a host of its own.
pub open spec fn with_scheme(host: Seq<char>, use_tls: bool) -> Seq<char> {
    (if use_tls {
        "https"@
    } else {
        "http"@
    }) + "://"@ + host
}

/// The server address: `host` itself where it is a URL with a host,
/// otherwise `https://host` with TLS and `http://host` without.
pub fn parse_target(host: &str, use_tls: bool) -> (r: Result<ParsedUrl, TargetError>)
    ensures
        url_parses(host@) && url_has_host(host@) ==> (r matches Ok(u) && u@ == host@),
        !(url_parses(host@) && url_has_host(host@)) ==> match r {
            Ok(u) => url_parses(with_scheme(host@, use_tls)) && u@ == with_scheme(host@, use_tls),
            Err(e) => !url_parses(with_scheme(host@, use_tls)) && e.host@ == host@,
        },
{
    match parse_url(host) {
        Some(u) => {
            if has_host(&u) {
                return Ok(u);
            }
        },
        None => {},
    }
    let scheme = if use_tls {
        "https"
    } else {
        "http"
    };
    let full = cat3(scheme, "://", host);
    match parse_url(full.as_str()) {
        Some(u) => Ok(u),
        None => Err(TargetError { host: String::from_str(host) }),
    }
}

/// Where paging through a history stands.
#[derive(Debug)]
pub struct HistoryPager {
    /// The token to ask for the next page with; empty for the first page.
    pub next_page_token: Vec<u8>,
    /// The number of the page to fetch next, from 1.
    pub page_num: u64,
    /// Whether the last page has been fetched.
    pub finished: bool,
}

impl HistoryPager {
    /// Before the first page.
    pub fn new() -> (r: HistoryPager)
        ensures
            r.next_page_token@.len() == 0,
            r.page_num == 1,
            !r.finished,
    {
        HistoryPager { next_page_token: Vec::new(), page_num: 1, finished: false }
    }

    /// Takes in the next-page token of the page just fetched: an empty token
    /// means there are no more pages.
    pub fn record_page(&mut self, next_page_token: Vec<u8>)
        requires
            !old(self).finished,
            old(self).page_num < u64::MAX,
        ensures
            next_page_token@.len() == 0 ==> final(self).finished && final(self).page_num
                == old(self).page_num && final(self).next_page_token@ == old(
                self,
            ).next_page_token@,
            next_page_token@.len() > 0 ==> !final(self).finished && final(self).page_num
                == old(self).page_num + 1 && final(self).next_page_token@ == next_page_token@,
    {
        if next_page_token.len() == 0 {
            self.finished = true;
        } else {
            self.next_page_token = next_page_token;
            self.page_num = self.page_num + 1;
        }
    }
}

} // verus!
