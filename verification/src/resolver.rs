//! Version resolution: turning a symbolic request into a concrete tag.
//!
//! An explicit tag passes through unchanged.  The "latest" request is
//! answered by the latest-release endpoint; when that yields no usable
//! release, the listing endpoint (most recent first, limit one) decides;
//! when both yield nothing, resolution fails rather than returning an empty
//! tag.  The shell performs the two queries and hands each outcome in as an
//! `Option` (`None` for a failed request, a non-success status, or an
//! unparseable body).

use vstd::prelude::*;
use vstd::string::*;
use crate::errors::ToolError;
use crate::release::{Release, SpecRelease};

verus! {

/// A version request: a concrete tag, or the symbolic latest release.
pub enum VersionRequest {
    Explicit(String),
    Latest,
}

/// What resolution does next for a request: the tag is already concrete, or
/// the latest-release endpoint must be queried.
pub enum ResolveStep {
    Done(String),
    QueryLatest,
}

/// What resolution does next after the latest-release query: the tag is
/// known, or the listing endpoint must be queried.
pub enum AfterLatest {
    Done(String),
    QueryList,
}

/// What resolution yields once both query outcomes are known.
pub open spec fn spec_resolve(
    latest: Option<SpecRelease>,
    list: Option<Seq<SpecRelease>>,
) -> Result<Seq<char>, ToolError> {
    match latest {
        Some(rel) => Ok(rel.tag),
        None => match list {
            Some(rels) => if rels.len() > 0 {
                Ok(rels[0].tag)
            } else {
                Err(ToolError::Resolution)
            },
            None => Err(ToolError::Resolution),
        },
    }
}

/// An explicit tag resolves to itself with no query; only the symbolic
/// request needs the network.
pub fn resolve_request(req: VersionRequest) -> (r: ResolveStep)
    ensures
        match req {
            VersionRequest::Explicit(t) => r matches ResolveStep::Done(u) && u@ == t@,
            VersionRequest::Latest => r is QueryLatest,
        },
{
    match req {
        VersionRequest::Explicit(t) => ResolveStep::Done(t),
        VersionRequest::Latest => ResolveStep::QueryLatest,
    }
}

/// Decides from the latest-release outcome: a usable release resolves to its
/// tag; anything else falls back to the listing endpoint.
pub fn resolve_after_latest(response: Option<Release>) -> (r: AfterLatest)
    ensures
        match response {
            Some(rel) => r matches AfterLatest::Done(t) && Ok::<Seq<char>, ToolError>(t@)
                == spec_resolve(Some(rel@), None),
            None => r is QueryList,
        },
{
    match response {
        Some(rel) => AfterLatest::Done(rel.tag),
        None => AfterLatest::QueryList,
    }
}

/// Decides from the listing outcome, reached only when the latest-release
/// endpoint yielded nothing: the first listed release resolves, an empty or
/// failed listing is a `Resolution` error.
pub fn resolve_from_list(response: Option<Vec<Release>>) -> (r: Result<String, ToolError>)
    ensures
        match r {
            Ok(t) => Ok::<Seq<char>, ToolError>(t@) == spec_resolve(
                None,
                match response {
                    Some(rels) => Some(rels@.map_values(|rel: Release| rel@)),
                    None => None,
                },
            ),
            Err(e) => Err::<Seq<char>, ToolError>(e) == spec_resolve(
                None,
                match response {
                    Some(rels) => Some(rels@.map_values(|rel: Release| rel@)),
                    None => None,
                },
            ),
        },
{
    match response {
        None => Err(ToolError::Resolution),
        Some(rels) => if rels.len() == 0 {
            Err(ToolError::Resolution)
        } else {
            let first = &rels[0];
            let tag = first.tag.clone();
            assert(rels@.map_values(|rel: Release| rel@)[0] == rels@[0]@);
            Ok(tag)
        },
    }
}

/// Resolution fails closed: when the latest-release endpoint yields nothing,
/// the listing endpoint decides, and when that too yields nothing the result
/// is a `Resolution` error — never an empty or invented tag.
pub proof fn lemma_resolution_fallback(list: Option<Seq<SpecRelease>>)
    ensures
        (spec_resolve(None, list) is Ok) <==> (list matches Some(rels) && rels.len() > 0),
        list matches Some(rels) ==> rels.len() > 0 ==> spec_resolve(None, list) == Ok::<
            Seq<char>,
            ToolError,
        >(rels[0].tag),
        (spec_resolve(None, list) is Err) ==> spec_resolve(None, list) == Err::<
            Seq<char>,
            ToolError,
        >(ToolError::Resolution),
{
}

} // verus!
