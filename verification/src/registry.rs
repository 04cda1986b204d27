//! The lookup of a package's newest version in the registry.
//!
//! The library says which request to send and reads what came back. Sending
//! it, waiting for the reply and decoding the reply's JSON belong to the
//! program around the library, which reports the outcome as an [`Upstream`].

use vstd::prelude::*;
use vstd::string::StringExecFns;

verus! {

/// What went wrong between this service and the registry.
#[derive(Clone, Copy, Debug, PartialEq, Eq, Structural)]
pub enum Fault {
    /// No reply came: the connection failed, or the name did not resolve.
    Unreachable,
    /// No reply came within the time allowed.
    TimedOut,
    /// The registry answered with a status that is neither 200 nor 404.
    Status(u16),
    /// The registry answered 200 with a body that does not have the shape
    /// `{"crate": {"max_version": "<string>"}}`.
    Malformed,
}

/// How one attempt to ask the registry ended, as the transport reports it.
#[derive(Debug, PartialEq, Eq)]
pub enum Upstream {
    /// The registry answered. `max_version` is the version that the body
    /// gave; it is `None` where the body was not read or did not decode.
    Reply { status: u16, max_version: Option<String> },
    /// The request failed below HTTP.
    Unreachable,
    /// The time allowed for the request ran out.
    TimedOut,
}

/// The outcome of a lookup.
#[derive(Debug, PartialEq, Eq)]
pub enum LookupResult {
    /// The package exists, and this is its newest version.
    Found(String),
    /// The registry knows no such package.
    NotFound,
    /// The registry could not be asked, or its answer could not be read.
    TransportError(Fault),
}

/// An [`Upstream`] as a plain value.
pub enum UpstreamView {
    Reply { status: u16, max_version: Option<Seq<char>> },
    Unreachable,
    TimedOut,
}

/// A [`LookupResult`] as a plain value.
pub enum Lookup {
    Found(Seq<char>),
    NotFound,
    TransportError(Fault),
}

impl View for Upstream {
    type V = UpstreamView;

    open spec fn view(&self) -> UpstreamView {
        match self {
            Upstream::Reply { status, max_version } => UpstreamView::Reply {
                status: *status,
                max_version: match max_version {
                    Some(version) => Some(version@),
                    None => None,
                },
            },
            Upstream::Unreachable => UpstreamView::Unreachable,
            Upstream::TimedOut => UpstreamView::TimedOut,
        }
    }
}

impl View for LookupResult {
    type V = Lookup;

    open spec fn view(&self) -> Lookup {
        match self {
            LookupResult::Found(version) => Lookup::Found(version@),
            LookupResult::NotFound => Lookup::NotFound,
            LookupResult::TransportError(fault) => Lookup::TransportError(*fault),
        }
    }
}

/// How many seconds the registry is given to answer.
pub const LOOKUP_TIMEOUT_SECS: u64 = 10;

/// The request that looks a package up: a GET of `url`, sent once, with
/// `user_agent` as its `User-Agent` header, and given up after `timeout_secs`
/// seconds.
#[derive(Debug, PartialEq, Eq)]
pub struct LookupRequest {
    pub url: String,
    pub user_agent: &'static str,
    pub timeout_secs: u64,
}

/// The registry's address for the package `name`: the name is put behind the
/// fixed prefix as it is.
pub open spec fn registry_url(name: Seq<char>) -> Seq<char> {
    "https://crates.io/api/v1/crates/"@ + name
}

/// The request that looks the package `name` up.
pub fn lookup_request(name: &str) -> (request: LookupRequest)
    ensures
        request.url@ == registry_url(name@),
        request.user_agent@ == "meritbadge/0.1"@,
        request.timeout_secs == LOOKUP_TIMEOUT_SECS,
{
    let mut url = String::from_str("https://crates.io/api/v1/crates/");
    url.append(name);
    LookupRequest { url, user_agent: "meritbadge/0.1", timeout_secs: LOOKUP_TIMEOUT_SECS }
}

/// Whether the body of a reply with this status is read at all: only that of
/// a 200.
pub open spec fn body_counts(status: u16) -> bool {
    status == 200
}

/// What an attempt amounts to.
///
/// A 200 gives the version that its body held and is a fault without one; a
/// 404 says that the package does not exist, whatever its body; every other
/// status, and every attempt without a reply, is a fault.
pub open spec fn classified(upstream: UpstreamView) -> Lookup {
    match upstream {
        UpstreamView::Reply { status, max_version } => if body_counts(status) {
            match max_version {
                Some(version) => Lookup::Found(version),
                None => Lookup::TransportError(Fault::Malformed),
            }
        } else if status == 404 {
            Lookup::NotFound
        } else {
            Lookup::TransportError(Fault::Status(status))
        },
        UpstreamView::Unreachable => Lookup::TransportError(Fault::Unreachable),
        UpstreamView::TimedOut => Lookup::TransportError(Fault::TimedOut),
    }
}

/// Whether the transport has to read and decode the body of a reply with this
/// status.
pub fn reads_body(status: u16) -> (reads: bool)
    ensures
        reads == body_counts(status),
{
    status == 200
}

/// Classifies the outcome of the one attempt that a lookup makes.
pub fn lookup(upstream: Upstream) -> (result: LookupResult)
    ensures
        result@ == classified(upstream@),
{
    match upstream {
        Upstream::Reply { status, max_version } => {
            if reads_body(status) {
                match max_version {
                    Some(version) => LookupResult::Found(version),
                    None => LookupResult::TransportError(Fault::Malformed),
                }
            } else if status == 404 {
                LookupResult::NotFound
            } else {
                LookupResult::TransportError(Fault::Status(status))
            }
        },
        Upstream::Unreachable => LookupResult::TransportError(Fault::Unreachable),
        Upstream::TimedOut => LookupResult::TransportError(Fault::TimedOut),
    }
}

} // verus!
