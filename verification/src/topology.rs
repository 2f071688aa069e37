//! The relay topology: regions, their nodes, and the mesh endpoints that are
//! derived from them.
//!
//! The regions stand in a hash map, so the order in which they are walked is
//! the map's own. Contracts speak of that order as [`DerpMap::walk`] and say
//! of it what holds of every walk: it lists each region of the map once.
use crate::endpoint::{
    are_relay_urls_of, fits_relay_path, is_relay_url_of, relay_url, takes_relay_path,
    url_cannot_be_a_base, url_host, url_path, url_port, url_scheme, RELAY_PATH,
};
use reqwest::Url;
use std::collections::HashMap;
use vstd::prelude::*;
use vstd::std_specs::hash::{into_iter, spec_hash_map_iter};
use vstd::std_specs::iter::IteratorSpec;

verus! {

/// One relay server of a region.
#[derive(Debug, Clone)]
pub struct DerpNode {
    pub name: String,
    pub region_id: u16,
    /// The base URL of the node, scheme included.
    pub url: Url,
}

/// A region and its relay servers, in the order in which they are tried.
#[derive(Debug, Clone)]
pub struct DerpRegion {
    pub region_id: u16,
    pub nodes: Vec<DerpNode>,
}

/// All the relay servers that can be used, by region.
#[derive(Debug, Clone)]
pub struct DerpMap {
    pub regions: HashMap<u16, DerpRegion>,
}

/// The URLs of `nodes`, in order.
pub open spec fn urls_of(nodes: Seq<DerpNode>) -> Seq<Url> {
    Seq::new(nodes.len(), |i: int| nodes[i].url)
}

/// The URLs of all nodes of the regions in `walk`: region after region, and
/// within a region node after node.
pub open spec fn node_urls_of(walk: Seq<(u16, DerpRegion)>) -> Seq<Url>
    decreases walk.len(),
{
    if walk.len() == 0 {
        Seq::empty()
    } else {
        node_urls_of(walk.drop_last()) + walk.last().1.node_urls()
    }
}

/// The number of nodes of the regions in `walk`, all regions together.
pub open spec fn node_count_of(walk: Seq<(u16, DerpRegion)>) -> nat
    decreases walk.len(),
{
    if walk.len() == 0 {
        0
    } else {
        node_count_of(walk.drop_last()) + walk.last().1.nodes@.len()
    }
}

/// `walk` lists the entries of `regions`, each of them once.
pub open spec fn lists_regions(walk: Seq<(u16, DerpRegion)>, regions: Map<u16, DerpRegion>) -> bool {
    &&& walk.len() == regions.len()
    &&& forall|i: int|
        0 <= i < walk.len() ==> regions.contains_key(#[trigger] walk[i].0) && regions[walk[i].0]
            == walk[i].1
    &&& forall|i: int, j: int|
        0 <= i < j < walk.len() ==> (#[trigger] walk[i]).0 != (#[trigger] walk[j]).0
    &&& forall|id: u16| #[trigger]
        regions.contains_key(id) ==> exists|i: int| 0 <= i < walk.len() && (#[trigger] walk[i]).0 == id
}

impl DerpRegion {
    /// The URLs of the region's nodes, in order.
    pub open spec fn node_urls(&self) -> Seq<Url> {
        urls_of(self.nodes@)
    }

    /// Every node URL of the region is short enough to be given the relay
    /// path.
    pub open spec fn rewritable(&self) -> bool {
        forall|i: int| 0 <= i < self.nodes@.len() ==> takes_relay_path(#[trigger] self.nodes@[i].url)
    }

    /// Whether every node URL of the region is short enough to be given the
    /// relay path.
    pub fn is_rewritable(&self) -> (ok: bool)
        ensures
            ok == self.rewritable(),
    {
        let mut i: usize = 0;
        while i < self.nodes.len()
            invariant
                i <= self.nodes@.len(),
                forall|k: int| 0 <= k < i ==> takes_relay_path(#[trigger] self.nodes@[k].url),
            decreases self.nodes@.len() - i,
        {
            if !fits_relay_path(&self.nodes[i].url) {
                return false;
            }
            i += 1;
        }
        true
    }

    /// Appends to `urls` the mesh endpoint of each node of the region, in the
    /// order of the nodes.
    pub fn append_relay_urls(&self, urls: &mut Vec<Url>)
        requires
            self.rewritable(),
        ensures
            final(urls)@.len() == old(urls)@.len() + self.nodes@.len(),
            final(urls)@.subrange(0, old(urls)@.len() as int) == old(urls)@,
            are_relay_urls_of(
                final(urls)@.subrange(old(urls)@.len() as int, final(urls)@.len() as int),
                self.node_urls(),
            ),
    {
        let ghost before = urls@;
        let mut i: usize = 0;
        while i < self.nodes.len()
            invariant
                i <= self.nodes@.len(),
                self.rewritable(),
                urls@.len() == before.len() + i,
                urls@.subrange(0, before.len() as int) == before,
                forall|k: int|
                    0 <= k < i ==> is_relay_url_of(
                        #[trigger] urls@[before.len() + k],
                        self.nodes@[k].url,
                    ),
            decreases self.nodes@.len() - i,
        {
            let url = relay_url(&self.nodes[i].url);
            urls.push(url);
            i += 1;
        }
        proof {
            let tail = urls@.subrange(before.len() as int, urls@.len() as int);
            assert forall|k: int| 0 <= k < self.node_urls().len() implies is_relay_url_of(
                #[trigger] tail[k],
                self.node_urls()[k],
            ) by {
                assert(tail[k] == urls@[before.len() + k]);
            }
        }
    }
}

impl DerpMap {
    /// The regions in the order in which the map is walked.
    pub open spec fn walk(&self) -> Seq<(u16, DerpRegion)> {
        into_iter(spec_hash_map_iter(&self.regions))
    }

    /// The URLs of all nodes, region after region in the order of the walk.
    pub open spec fn node_urls(&self) -> Seq<Url> {
        node_urls_of(self.walk())
    }

    /// The number of nodes, all regions together.
    pub open spec fn node_count(&self) -> nat {
        node_count_of(self.walk())
    }

    /// Every node URL of every region is short enough to be given the relay
    /// path.
    pub open spec fn rewritable(&self) -> bool {
        forall|id: u16| #[trigger]
            self.regions@.contains_key(id) ==> self.regions@[id].rewritable()
    }

    /// Whether every node URL of every region is short enough to be given the
    /// relay path.
    pub fn is_rewritable(&self) -> (ok: bool)
        ensures
            ok == self.rewritable(),
            lists_regions(self.walk(), self.regions@),
    {
        let mut ok = true;
        for entry in it: self.regions.iter()
            invariant
                it.seq().unref() == self.walk(),
                it.seq().no_duplicates(),
                it.seq() == spec_hash_map_iter(&self.regions).remaining(),
                ok <==> forall|k: int| 0 <= k < it.index() ==> (#[trigger] self.walk()[k]).1.rewritable(),
        {
            assert(*entry.1 == self.walk()[it.index() as int].1);
            if !entry.1.is_rewritable() {
                ok = false;
            }
        }
        proof {
            lemma_walk_lists_regions(self, spec_hash_map_iter(&self.regions).remaining());
            let walk = self.walk();
            if ok {
                assert forall|id: u16| #[trigger] self.regions@.contains_key(id) implies self.regions@[id].rewritable() by {
                    let i = choose|i: int| 0 <= i < walk.len() && (#[trigger] walk[i]).0 == id;
                    assert(walk[i].1.rewritable());
                }
            } else {
                let k = choose|k: int| 0 <= k < walk.len() && !(#[trigger] walk[k]).1.rewritable();
                assert(self.regions@.contains_key(walk[k].0));
            }
        }
        ok
    }

    /// The mesh endpoints of all nodes: one for each node of each region,
    /// region after region as the map is walked and node after node within a
    /// region.
    pub fn relay_urls(&self) -> (urls: Vec<Url>)
        requires
            self.rewritable(),
        ensures
            are_relay_urls_of(urls@, self.node_urls()),
            urls@.len() == self.node_count(),
            lists_regions(self.walk(), self.regions@),
    {
        let mut urls: Vec<Url> = Vec::new();
        for entry in it: self.regions.iter()
            invariant
                it.seq().unref() == self.walk(),
                it.seq().no_duplicates(),
                it.seq() == spec_hash_map_iter(&self.regions).remaining(),
                self.rewritable(),
                are_relay_urls_of(urls@, node_urls_of(self.walk().take(it.index() as int))),
        {
            let ghost done = self.walk().take(it.index() as int);
            let ghost next = self.walk().take(it.index() + 1);
            let ghost before = urls@;
            proof {
                lemma_walk_lists_regions(self, spec_hash_map_iter(&self.regions).remaining());
            }
            assert(*entry.1 == self.walk()[it.index() as int].1);
            assert(self.regions@.contains_key(self.walk()[it.index() as int].0));
            entry.1.append_relay_urls(&mut urls);
            proof {
                assert(next.drop_last() == done);
                assert(next.last() == self.walk()[it.index() as int]);
                let tail = urls@.subrange(before.len() as int, urls@.len() as int);
                assert(urls@ == before + tail);
                assert forall|k: int| 0 <= k < node_urls_of(next).len() implies is_relay_url_of(
                    #[trigger] urls@[k],
                    node_urls_of(next)[k],
                ) by {
                    if k >= before.len() {
                        assert(urls@[k] == tail[k - before.len()]);
                    }
                }
            }
        }
        proof {
            lemma_walk_lists_regions(self, spec_hash_map_iter(&self.regions).remaining());
            assert(self.walk().take(self.walk().len() as int) == self.walk());
            lemma_node_urls_len(self.walk());
        }
        urls
    }
}

/// A walk of the map's regions, free of repetitions, lists each region once.
proof fn lemma_walk_lists_regions(map: &DerpMap, seen: Seq<(&u16, &DerpRegion)>)
    requires
        seen == spec_hash_map_iter(&map.regions).remaining(),
        seen.no_duplicates(),
        seen.unref() == map.walk(),
    ensures
        lists_regions(map.walk(), map.regions@),
{
    broadcast use vstd::std_specs::hash::axiom_spec_hash_map_iter;

    let walk = map.walk();
    let regions = map.regions@;
    assert(walk.len() == regions.len());
    assert forall|i: int| 0 <= i < walk.len() implies regions.contains_key(#[trigger] walk[i].0)
        && regions[walk[i].0] == walk[i].1 by {
        assert(regions.contains_key(*seen[i].0));
    }
    assert forall|i: int, j: int| 0 <= i < j < walk.len() implies (#[trigger] walk[i]).0 != (
    #[trigger] walk[j]).0 by {
        assert(regions.contains_key(*seen[i].0));
        assert(regions.contains_key(*seen[j].0));
        if walk[i].0 == walk[j].0 {
            assert(seen[i] == seen[j]);
        }
    }
    assert forall|id: u16| #[trigger] regions.contains_key(id) implies exists|i: int|
        0 <= i < walk.len() && (#[trigger] walk[i]).0 == id by {
        assert(seen.contains((&id, &regions[id])));
        let i = choose|i: int| 0 <= i < seen.len() && seen[i] == (&id, &regions[id]);
        assert(walk[i].0 == id);
    }
}

/// There are as many node URLs as the regions have nodes, all together.
pub proof fn lemma_node_urls_len(walk: Seq<(u16, DerpRegion)>)
    ensures
        node_urls_of(walk).len() == node_count_of(walk),
    decreases walk.len(),
{
    if walk.len() > 0 {
        lemma_node_urls_len(walk.drop_last());
    }
}

/// The node URLs follow the walk: the URL of node `n` of the region at place
/// `r` stands behind those of all regions walked before it, at place `n`
/// among those of its own region.
pub proof fn lemma_node_urls_index(walk: Seq<(u16, DerpRegion)>, r: int, n: int)
    requires
        0 <= r < walk.len(),
        0 <= n < walk[r].1.nodes@.len(),
    ensures
        node_count_of(walk.take(r)) + n < node_urls_of(walk).len(),
        node_urls_of(walk)[node_count_of(walk.take(r)) + n] == walk[r].1.nodes@[n].url,
    decreases walk.len(),
{
    let front = walk.drop_last();
    lemma_node_urls_len(front);
    lemma_node_urls_len(walk);
    if r == walk.len() - 1 {
        assert(walk.take(r) == front);
    } else {
        assert(front.take(r) == walk.take(r));
        assert(front[r] == walk[r]);
        lemma_node_urls_index(front, r, n);
    }
}

/// Address derivation. Where `urls` holds the mesh endpoints of a map, there
/// is one endpoint for each node of each region; the endpoint of node `n` of
/// the region at place `r` of the walk stands behind those of the regions
/// walked before, at place `n` of its region; and it has scheme, host and
/// port of that node's URL and, unless that URL has an opaque path, the relay
/// path for its path.
pub proof fn lemma_address_derivation(map: DerpMap, urls: Seq<Url>, r: int, n: int)
    requires
        are_relay_urls_of(urls, map.node_urls()),
        0 <= r < map.walk().len(),
        0 <= n < map.walk()[r].1.nodes@.len(),
    ensures
        urls.len() == map.node_count(),
        node_count_of(map.walk().take(r)) + n < urls.len(),
        ({
            let node = map.walk()[r].1.nodes@[n].url;
            let relay = urls[node_count_of(map.walk().take(r)) + n];
            &&& is_relay_url_of(relay, node)
            &&& url_scheme(relay) == url_scheme(node)
            &&& url_host(relay) == url_host(node)
            &&& url_port(relay) == url_port(node)
            &&& !url_cannot_be_a_base(node) ==> url_path(relay) == RELAY_PATH@
        }),
{
    lemma_node_urls_len(map.walk());
    lemma_node_urls_index(map.walk(), r, n);
}

} // verus!
