use derp_mesh::addrs::MeshAddrs;
use derp_mesh::topology::{DerpMap, DerpNode, DerpRegion};
use reqwest::Url;
use std::collections::HashMap;

fn url(text: &str) -> Url {
    Url::parse(text).unwrap()
}

fn one_region_map(urls: Vec<&str>) -> DerpMap {
    let mut nodes = Vec::new();
    for u in urls {
        nodes.push(DerpNode { name: "n".to_string(), region_id: 1, url: url(u) });
    }
    let mut regions = HashMap::new();
    regions.insert(1, DerpRegion { region_id: 1, nodes });
    DerpMap { regions }
}

#[test]
fn a_list_resolves_to_itself() {
    let u1 = url("http://127.0.0.1:3340/derp");
    let u2 = url("https://relay.example.com/not/the/relay/path?x#y");
    let addrs = MeshAddrs::Addrs(vec![u1.clone(), u2.clone()]);
    assert!(addrs.is_rewritable());
    assert_eq!(addrs.resolve(), vec![u1, u2]);
}

#[test]
fn a_list_keeps_its_repetitions() {
    let u1 = url("http://127.0.0.1:3340/derp");
    let addrs = MeshAddrs::Addrs(vec![u1.clone(), u1.clone(), u1.clone()]);
    assert_eq!(addrs.resolve(), vec![u1.clone(), u1.clone(), u1]);
}

#[test]
fn a_list_is_not_rewritten() {
    let odd = url("mailto:nobody@example.com");
    let addrs = MeshAddrs::Addrs(vec![odd.clone()]);
    assert_eq!(addrs.resolve(), vec![odd]);
}

#[test]
fn an_empty_list_resolves_to_nothing() {
    let addrs = MeshAddrs::Addrs(Vec::new());
    assert!(addrs.resolve().is_empty());
    assert_eq!(addrs.try_resolve(), Some(Vec::new()));
}

#[test]
fn a_map_resolves_to_the_relay_urls_of_its_nodes() {
    let addrs = MeshAddrs::DerpMap(one_region_map(vec![
        "https://a.example.com:8443/x",
        "http://b.example.com",
    ]));
    assert!(addrs.is_rewritable());
    assert_eq!(
        addrs.resolve(),
        vec![url("https://a.example.com:8443/derp"), url("http://b.example.com/derp")]
    );
}

#[test]
fn an_empty_map_resolves_to_nothing() {
    let addrs = MeshAddrs::DerpMap(DerpMap { regions: HashMap::new() });
    assert!(addrs.resolve().is_empty());
}

#[test]
fn try_resolve_gives_what_resolve_gives() {
    let addrs = MeshAddrs::DerpMap(one_region_map(vec!["https://a.example.com/x"]));
    assert_eq!(addrs.try_resolve(), Some(vec![url("https://a.example.com/derp")]));
    let addrs = MeshAddrs::Addrs(vec![url("https://a.example.com/x")]);
    assert_eq!(addrs.try_resolve(), Some(vec![url("https://a.example.com/x")]));
}

#[test]
fn addrs_can_be_cloned() {
    let addrs = MeshAddrs::Addrs(vec![url("https://a.example.com/x")]);
    let copy = addrs.clone();
    assert_eq!(copy.resolve(), addrs.resolve());
    assert!(format!("{:?}", copy).contains("a.example.com"));
}
