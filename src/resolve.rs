//! Resolution of a configuration.
//!
//! Which concrete profiles satisfy a set of requests together is the native
//! library's decision, made by its own matching routine; this module carries
//! that answer unchanged, and checks profiles against the requests they are
//! meant to serve.

use vstd::prelude::*;
use crate::base::StreamProfile;
use crate::config::{Config, StreamRequest};
use crate::kind::{Format, StreamKind};

verus! {

/// What the native library's resolve call answered for a configuration.
#[derive(Debug)]
pub enum ResolveAnswer {
    /// The configuration can be streamed, with these profiles.
    Resolvable(Vec<StreamProfile>),
    /// No device and stream combination satisfies it.
    Unresolvable,
}

/// A profile meets a request: each field is either left open or equal.
pub open spec fn request_matches(r: StreamRequest, p: StreamProfile) -> bool {
    &&& (r.stream == StreamKind::Any || r.stream == p.data.stream)
    &&& (match r.index {
        Some(i) => i == p.data.index,
        None => true,
    })
    &&& (r.width == 0 || r.width == p.resolution.width)
    &&& (r.height == 0 || r.height == p.resolution.height)
    &&& (r.format == Format::Any || r.format == p.data.format)
    &&& (r.framerate == 0 || r.framerate as int == p.data.framerate as int)
}

/// Some profile of `ps` meets `r`.
pub open spec fn has_match(r: StreamRequest, ps: Seq<StreamProfile>) -> bool {
    exists|j: int| 0 <= j < ps.len() && request_matches(r, #[trigger] ps[j])
}

/// `ps[j]` is the first profile of `ps` that meets `r`.
pub open spec fn is_first_match(r: StreamRequest, ps: Seq<StreamProfile>, j: int) -> bool {
    &&& 0 <= j < ps.len()
    &&& request_matches(r, ps[j])
    &&& forall|k: int| 0 <= k < j ==> !request_matches(r, #[trigger] ps[k])
}

/// The position of the first profile of `ps` that meets `r`.
pub open spec fn first_match(r: StreamRequest, ps: Seq<StreamProfile>) -> int {
    choose|j: int| is_first_match(r, ps, j)
}

/// Every request of `reqs` is met by some profile of `ps`.
pub open spec fn meets_all(reqs: Seq<StreamRequest>, ps: Seq<StreamProfile>) -> bool {
    forall|i: int| 0 <= i < reqs.len() ==> has_match(#[trigger] reqs[i], ps)
}

/// A request that leaves every field to the resolver.
pub open spec fn is_wildcard(r: StreamRequest) -> bool {
    &&& r.stream == StreamKind::Any
    &&& r.index is None
    &&& r.width == 0
    &&& r.height == 0
    &&& r.format == Format::Any
    &&& r.framerate == 0
}

/// Requests that leave every field open are met by any non-empty set of
/// profiles, each by its first profile.
pub proof fn lemma_wildcards_met(reqs: Seq<StreamRequest>, ps: Seq<StreamProfile>)
    requires
        forall|i: int| 0 <= i < reqs.len() ==> is_wildcard(#[trigger] reqs[i]),
        ps.len() > 0,
    ensures
        meets_all(reqs, ps),
        forall|i: int| 0 <= i < reqs.len() ==> first_match(#[trigger] reqs[i], ps) == 0,
{
    assert forall|i: int| 0 <= i < reqs.len() implies has_match(#[trigger] reqs[i], ps) by {
        assert(request_matches(reqs[i], ps[0]));
    }
    assert forall|i: int| 0 <= i < reqs.len() implies first_match(#[trigger] reqs[i], ps) == 0 by {
        assert(is_first_match(reqs[i], ps, 0));
        let c = first_match(reqs[i], ps);
        if c != 0 {
            assert(!request_matches(reqs[i], ps[0]));
        }
    }
}

/// A request for a stream kind in a format that no profile of `ps` combines
/// is not met by `ps`.
pub proof fn lemma_unsatisfiable_request(reqs: Seq<StreamRequest>, ps: Seq<StreamProfile>, i: int)
    requires
        0 <= i < reqs.len(),
        reqs[i].stream != StreamKind::Any,
        reqs[i].format != Format::Any,
        forall|j: int|
            0 <= j < ps.len() ==> !((#[trigger] ps[j]).data.stream == reqs[i].stream
                && ps[j].data.format == reqs[i].format),
    ensures
        !meets_all(reqs, ps),
{
    if has_match(reqs[i], ps) {
        let j = choose|j: int| 0 <= j < ps.len() && request_matches(reqs[i], #[trigger] ps[j]);
        assert(!(ps[j].data.stream == reqs[i].stream && ps[j].data.format == reqs[i].format));
    }
}

/// Checks a request against a profile.
pub fn matches_request(r: &StreamRequest, p: &StreamProfile) -> (b: bool)
    ensures
        b == request_matches(*r, *p),
{
    let index_ok = match r.index {
        Some(i) => i == p.data.index,
        None => true,
    };
    (r.stream == StreamKind::Any || r.stream == p.data.stream) && index_ok && (r.width == 0
        || r.width == p.resolution.width) && (r.height == 0 || r.height == p.resolution.height)
        && (r.format == Format::Any || r.format == p.data.format) && (r.framerate == 0
        || (p.data.framerate >= 0 && r.framerate == p.data.framerate as usize))
}

/// The position of the first profile of `ps` that meets `r`, if any does.
pub fn find_first_match(r: &StreamRequest, ps: &Vec<StreamProfile>) -> (res: Option<usize>)
    ensures
        res is None <==> !has_match(*r, ps@),
        res matches Some(j) ==> is_first_match(*r, ps@, j as int) && j as int == first_match(
            *r,
            ps@,
        ),
{
    let mut i: usize = 0;
    while i < ps.len()
        invariant
            0 <= i <= ps@.len(),
            forall|k: int| 0 <= k < i ==> !request_matches(*r, #[trigger] ps@[k]),
        decreases ps@.len() - i,
    {
        if matches_request(r, &ps[i]) {
            proof {
                assert(is_first_match(*r, ps@, i as int));
                let c = first_match(*r, ps@);
                assert(is_first_match(*r, ps@, c));
                if c < i {
                    assert(!request_matches(*r, ps@[c]));
                } else if c > i {
                    assert(!request_matches(*r, ps@[i as int]));
                }
            }
            return Some(i);
        }
        i = i + 1;
    }
    None
}

/// Whether every request of the configuration is met by some profile of `ps`.
pub fn meets_requests(cfg: &Config, ps: &Vec<StreamProfile>) -> (b: bool)
    ensures
        b == meets_all(cfg.spec_requests(), ps@),
{
    let reqs = cfg.requests();
    let mut i: usize = 0;
    while i < reqs.len()
        invariant
            0 <= i <= reqs@.len(),
            reqs@ == cfg.spec_requests(),
            forall|k: int| 0 <= k < i ==> has_match(#[trigger] reqs@[k], ps@),
        decreases reqs@.len() - i,
    {
        if find_first_match(&reqs[i], ps).is_none() {
            return false;
        }
        i = i + 1;
    }
    true
}

/// Whether the native library found the configuration resolvable; never fails.
pub fn can_resolve(answer: &ResolveAnswer) -> (b: bool)
    ensures
        b == answer is Resolvable,
{
    match answer {
        ResolveAnswer::Resolvable(_) => true,
        ResolveAnswer::Unresolvable => false,
    }
}

/// The profiles the native library resolved the configuration to, or `None`
/// where it found none; never fails.
pub fn resolve(answer: ResolveAnswer) -> (r: Option<Vec<StreamProfile>>)
    ensures
        match answer {
            ResolveAnswer::Resolvable(v) => r == Some(v),
            ResolveAnswer::Unresolvable => r is None,
        },
{
    match answer {
        ResolveAnswer::Resolvable(v) => Some(v),
        ResolveAnswer::Unresolvable => None,
    }
}

} // verus!
