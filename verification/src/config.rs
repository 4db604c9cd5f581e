//! Client configuration: the hosts that serve the API and their base URLs.

use vstd::prelude::*;

verus! {

/// A host serving part of the Lichess API.
#[derive(Debug, Clone, Copy, PartialEq, Eq, Structural)]
pub enum Host {
    /// `https://lichess.org`, the main API.
    Default,
    /// `https://explorer.lichess.org`, the opening explorer.
    OpeningExplorer,
    /// `https://tablebase.lichess.org`, the endgame tablebase.
    Tablebase,
    /// `https://engine.lichess.ovh`, external-engine analysis.
    Engine,
}

impl Host {
    /// The default base URL of the host.
    pub fn default_base_url(self) -> (r: &'static str)
        ensures
            r@ == self.default_base(),
    {
        match self {
            Host::Default => "https://lichess.org",
            Host::OpeningExplorer => "https://explorer.lichess.org",
            Host::Tablebase => "https://tablebase.lichess.org",
            Host::Engine => "https://engine.lichess.ovh",
        }
    }

    /// The default base URL of each host.
    pub open spec fn default_base(self) -> Seq<char> {
        match self {
            Host::Default => "https://lichess.org"@,
            Host::OpeningExplorer => "https://explorer.lichess.org"@,
            Host::Tablebase => "https://tablebase.lichess.org"@,
            Host::Engine => "https://engine.lichess.ovh"@,
        }
    }
}

/// Each host is served from its own address: the main API from
/// `https://lichess.org`, the opening explorer from `https://explorer.lichess.org`,
/// the tablebase from `https://tablebase.lichess.org` and external-engine analysis
/// from `https://engine.lichess.ovh`.
pub proof fn lemma_host_bases()
    ensures
        Host::Default.default_base() == seq!['h', 't', 't', 'p', 's', ':', '/', '/', 'l', 'i', 'c', 'h', 'e', 's', 's', '.', 'o', 'r', 'g'],
        Host::OpeningExplorer.default_base() == seq!['h', 't', 't', 'p', 's', ':', '/', '/', 'e', 'x', 'p', 'l', 'o', 'r', 'e', 'r', '.', 'l', 'i', 'c', 'h', 'e', 's', 's', '.', 'o', 'r', 'g'],
        Host::Tablebase.default_base() == seq!['h', 't', 't', 'p', 's', ':', '/', '/', 't', 'a', 'b', 'l', 'e', 'b', 'a', 's', 'e', '.', 'l', 'i', 'c', 'h', 'e', 's', 's', '.', 'o', 'r', 'g'],
        Host::Engine.default_base() == seq!['h', 't', 't', 'p', 's', ':', '/', '/', 'e', 'n', 'g', 'i', 'n', 'e', '.', 'l', 'i', 'c', 'h', 'e', 's', 's', '.', 'o', 'v', 'h'],
{
    assert(Host::Default.default_base() =~= seq!['h', 't', 't', 'p', 's', ':', '/', '/', 'l', 'i', 'c', 'h', 'e', 's', 's', '.', 'o', 'r', 'g']) by {
        reveal_strlit("https://lichess.org");
    }
    assert(Host::OpeningExplorer.default_base() =~= seq!['h', 't', 't', 'p', 's', ':', '/', '/', 'e', 'x', 'p', 'l', 'o', 'r', 'e', 'r', '.', 'l', 'i', 'c', 'h', 'e', 's', 's', '.', 'o', 'r', 'g']) by {
        reveal_strlit("https://explorer.lichess.org");
    }
    assert(Host::Tablebase.default_base() =~= seq!['h', 't', 't', 'p', 's', ':', '/', '/', 't', 'a', 'b', 'l', 'e', 'b', 'a', 's', 'e', '.', 'l', 'i', 'c', 'h', 'e', 's', 's', '.', 'o', 'r', 'g']) by {
        reveal_strlit("https://tablebase.lichess.org");
    }
    assert(Host::Engine.default_base() =~= seq!['h', 't', 't', 'p', 's', ':', '/', '/', 'e', 'n', 'g', 'i', 'n', 'e', '.', 'l', 'i', 'c', 'h', 'e', 's', 's', '.', 'o', 'v', 'h']) by {
        reveal_strlit("https://engine.lichess.ovh");
    }
}

/// The base URL of each host, as configured.
#[derive(Debug, Clone)]
pub struct HostUrls {
    default: String,
    opening_explorer: String,
    tablebase: String,
    engine: String,
}

impl HostUrls {
    /// The configured base URL of a host.
    pub closed spec fn base_of(&self, host: Host) -> Seq<char> {
        match host {
            Host::Default => self.default@,
            Host::OpeningExplorer => self.opening_explorer@,
            Host::Tablebase => self.tablebase@,
            Host::Engine => self.engine@,
        }
    }

    /// Every host at its default base URL.
    pub fn defaults() -> (r: HostUrls)
        ensures
            forall|h: Host| #[trigger] r.base_of(h) == h.default_base(),
    {
        HostUrls {
            default: String::from_str(Host::Default.default_base_url()),
            opening_explorer: String::from_str(Host::OpeningExplorer.default_base_url()),
            tablebase: String::from_str(Host::Tablebase.default_base_url()),
            engine: String::from_str(Host::Engine.default_base_url()),
        }
    }

    /// The configured base URL of a host.
    pub fn get(&self, host: Host) -> (r: &str)
        ensures
            r@ == self.base_of(host),
    {
        match host {
            Host::Default => self.default.as_str(),
            Host::OpeningExplorer => self.opening_explorer.as_str(),
            Host::Tablebase => self.tablebase.as_str(),
            Host::Engine => self.engine.as_str(),
        }
    }

    /// Points one host at another base URL (a mirror or a test server),
    /// leaving the others as they were.
    pub fn set(self, host: Host, url: String) -> (r: HostUrls)
        ensures
            r.base_of(host) == url@,
            forall|h: Host| h != host ==> #[trigger] r.base_of(h) == self.base_of(h),
    {
        match host {
            Host::Default => HostUrls { default: url, ..self },
            Host::OpeningExplorer => HostUrls { opening_explorer: url, ..self },
            Host::Tablebase => HostUrls { tablebase: url, ..self },
            Host::Engine => HostUrls { engine: url, ..self },
        }
    }
}

} // verus!
