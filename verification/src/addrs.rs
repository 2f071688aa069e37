//! The ways to say which relay servers to mesh with, and how either of them
//! is resolved into the list of endpoints to connect to.
use crate::endpoint::are_relay_urls_of;
use crate::topology::{lists_regions, DerpMap};
use reqwest::Url;
use vstd::prelude::*;

verus! {

/// The different ways to express the mesh network you want to join.
#[derive(Debug, Clone)]
pub enum MeshAddrs {
    /// Supply a `DerpMap` of all the derp servers you want to mesh with.
    DerpMap(DerpMap),
    /// Supply a list of `Url`s of all the derp server you want to mesh with.
    Addrs(Vec<Url>),
}

impl MeshAddrs {
    /// The addresses can be resolved: where they are given by a map, every
    /// node URL of it is short enough to be given the relay path. A list of
    /// URLs always can.
    pub open spec fn rewritable(&self) -> bool {
        match self {
            MeshAddrs::DerpMap(map) => map.rewritable(),
            MeshAddrs::Addrs(_) => true,
        }
    }

    /// The number of endpoints that the addresses resolve to: the length of
    /// the list, or the number of nodes of the map, all regions together.
    pub open spec fn endpoint_count(&self) -> nat {
        match self {
            MeshAddrs::DerpMap(map) => map.node_count(),
            MeshAddrs::Addrs(urls) => urls@.len(),
        }
    }

    /// `endpoints` is what the addresses resolve to: the list itself, or the
    /// mesh endpoint of each node of the map, region after region as the map
    /// is walked.
    pub open spec fn resolves_to(&self, endpoints: Seq<Url>) -> bool {
        match self {
            MeshAddrs::DerpMap(map) => are_relay_urls_of(endpoints, map.node_urls()),
            MeshAddrs::Addrs(urls) => endpoints == urls@,
        }
    }

    /// Whether the addresses can be resolved.
    pub fn is_rewritable(&self) -> (ok: bool)
        ensures
            ok == self.rewritable(),
    {
        match self {
            MeshAddrs::DerpMap(map) => map.is_rewritable(),
            MeshAddrs::Addrs(_) => true,
        }
    }

    /// The endpoints to connect to, in order and with repetitions kept. A
    /// list of URLs is handed on as it is; a map gives one endpoint for each
    /// node of each region.
    pub fn resolve(&self) -> (endpoints: Vec<Url>)
        requires
            self.rewritable(),
        ensures
            self.resolves_to(endpoints@),
            endpoints@.len() == self.endpoint_count(),
            self matches MeshAddrs::DerpMap(map) ==> lists_regions(map.walk(), map.regions@),
    {
        match self {
            MeshAddrs::DerpMap(map) => map.relay_urls(),
            MeshAddrs::Addrs(urls) => urls.clone(),
        }
    }

    /// The endpoints to connect to, or `None` where a node URL of the map is
    /// too long to be rewritten.
    pub fn try_resolve(&self) -> (endpoints: Option<Vec<Url>>)
        ensures
            endpoints is Some <==> self.rewritable(),
            endpoints matches Some(urls) ==> self.resolves_to(urls@) && urls@.len()
                == self.endpoint_count(),
    {
        if self.is_rewritable() {
            Some(self.resolve())
        } else {
            None
        }
    }
}

/// Explicit passthrough. A list of URLs resolves to itself and to nothing
/// else: same length, same URLs at the same places.
pub proof fn lemma_explicit_passthrough(urls: Vec<Url>, endpoints: Seq<Url>)
    requires
        MeshAddrs::Addrs(urls).resolves_to(endpoints),
    ensures
        endpoints == urls@,
        endpoints.len() == urls@.len(),
        forall|i: int| 0 <= i < urls@.len() ==> endpoints[i] == urls@[i],
{
}

} // verus!
