use derp_mesh::addrs::MeshAddrs;
use derp_mesh::clients::{Lifecycle, MeshClients, MeshKey, SecretKey};
use derp_mesh::topology::{DerpMap, DerpNode, DerpRegion};
use reqwest::Url;
use std::collections::HashMap;

fn url(text: &str) -> Url {
    Url::parse(text).unwrap()
}

fn key(byte: u8) -> SecretKey {
    SecretKey::from_bytes([byte; 32])
}

fn two_region_map() -> DerpMap {
    let mut regions = HashMap::new();
    regions.insert(
        1,
        DerpRegion {
            region_id: 1,
            nodes: vec![
                DerpNode { name: "1a".to_string(), region_id: 1, url: url("https://a.example.com/x") },
                DerpNode { name: "1b".to_string(), region_id: 1, url: url("https://b.example.com") },
            ],
        },
    );
    regions.insert(
        2,
        DerpRegion {
            region_id: 2,
            nodes: vec![DerpNode { name: "2a".to_string(), region_id: 2, url: url("http://c.example.com:81/") }],
        },
    );
    DerpMap { regions }
}

#[test]
fn a_secret_key_keeps_its_bytes() {
    let mut bytes = [0u8; 32];
    for (i, b) in bytes.iter_mut().enumerate() {
        *b = (i * 7) as u8;
    }
    let k = SecretKey::from_bytes(bytes);
    assert_eq!(k.to_bytes(), bytes);
    assert_eq!(k.duplicate().to_bytes(), bytes);
}

#[test]
fn a_new_manager_has_started_nothing() {
    let addrs = MeshAddrs::Addrs(vec![url("http://127.0.0.1:3340/derp")]);
    let clients = MeshClients::new([1; 32], key(2), addrs);
    assert_eq!(clients.task_count(), 0);
    assert!(clients.tasks().is_empty());
    assert!(clients.can_mesh());
    assert_eq!(clients.lifecycle(), Lifecycle::Created);
    assert!(!clients.cancel_token().is_cancelled());
    assert_eq!(clients.mesh_addrs().resolve(), vec![url("http://127.0.0.1:3340/derp")]);
}

#[test]
fn mesh_starts_one_connection_for_each_address() {
    let mesh_key: MeshKey = [1; 32];
    let u1 = url("http://127.0.0.1:3340/derp");
    let u2 = url("http://127.0.0.1:3341/derp");
    let mut clients = MeshClients::new(mesh_key, key(9), MeshAddrs::Addrs(vec![u1.clone(), u2.clone()]));
    let started = clients.mesh();
    assert_eq!(started.len(), 2);
    assert_eq!(started[0].server_url, u1);
    assert_eq!(started[1].server_url, u2);
    for config in started.iter() {
        assert_eq!(config.mesh_key, mesh_key);
        assert_eq!(config.server_key.to_bytes(), [9u8; 32]);
    }
    assert_eq!(clients.task_count(), 2);
    assert_eq!(clients.tasks(), &vec![u1, u2]);
    assert!(!clients.cancel_token().is_cancelled());
    assert_eq!(clients.lifecycle(), Lifecycle::Meshing);
}

#[test]
fn mesh_with_no_address_starts_nothing() {
    let mut clients = MeshClients::new([0; 32], key(0), MeshAddrs::Addrs(Vec::new()));
    assert!(clients.mesh().is_empty());
    assert_eq!(clients.task_count(), 0);
    assert_eq!(clients.lifecycle(), Lifecycle::Meshing);
    let last = clients.shutdown();
    assert_eq!(last.state(), Lifecycle::Terminated);
}

#[test]
fn mesh_of_a_map_connects_to_the_relay_path_of_each_node() {
    let mut clients = MeshClients::new([3; 32], key(4), MeshAddrs::DerpMap(two_region_map()));
    let started = clients.mesh();
    assert_eq!(started.len(), 3);
    let mut got: Vec<String> = started.iter().map(|c| c.server_url.as_str().to_string()).collect();
    let recorded: Vec<String> = clients.tasks().iter().map(|u| u.as_str().to_string()).collect();
    assert_eq!(got, recorded);
    got.sort();
    assert_eq!(
        got,
        vec!["http://c.example.com:81/derp", "https://a.example.com/derp", "https://b.example.com/derp"]
    );
}

#[test]
fn meshing_twice_starts_everything_twice() {
    let u1 = url("http://127.0.0.1:3340/derp");
    let u2 = url("http://127.0.0.1:3341/derp");
    let u3 = url("http://127.0.0.1:3340/derp");
    let mut clients =
        MeshClients::new([1; 32], key(1), MeshAddrs::Addrs(vec![u1.clone(), u2.clone(), u3.clone()]));
    let first = clients.mesh();
    let second = clients.mesh();
    assert_eq!(first.len(), 3);
    assert_eq!(second.len(), 3);
    assert_eq!(clients.task_count(), 6);
    assert_eq!(clients.lifecycle(), Lifecycle::Meshing);
    assert_eq!(clients.tasks(), &vec![u1.clone(), u2.clone(), u3.clone(), u1, u2, u3]);
}

#[test]
fn try_mesh_meshes() {
    let u1 = url("https://relay.example.com/derp");
    let mut clients = MeshClients::new([1; 32], key(1), MeshAddrs::Addrs(vec![u1.clone()]));
    let started = clients.try_mesh().unwrap();
    assert_eq!(started.len(), 1);
    assert_eq!(started[0].server_url, u1);
    assert_eq!(clients.task_count(), 1);
}

#[test]
fn shutdown_raises_the_signal_and_hands_over_every_task() {
    let u1 = url("http://127.0.0.1:3340/derp");
    let u2 = url("http://127.0.0.1:3341/derp");
    let mut clients = MeshClients::new([1; 32], key(1), MeshAddrs::Addrs(vec![u1.clone(), u2.clone()]));
    let _ = clients.mesh();
    let watcher = clients.cancel_token().clone();
    assert!(!watcher.is_cancelled());
    let mut last = clients.shutdown();
    assert!(last.cancel.is_cancelled());
    assert!(watcher.is_cancelled());
    assert_eq!(last.tasks, vec![u1, u2]);
    assert_eq!(last.state(), Lifecycle::ShuttingDown);
    last.all_joined();
    assert_eq!(last.state(), Lifecycle::Terminated);
    assert!(last.tasks.is_empty());
    assert!(last.cancel.is_cancelled());
}

#[test]
fn shutdown_of_a_new_manager_has_nothing_to_join() {
    let clients = MeshClients::new([1; 32], key(1), MeshAddrs::Addrs(vec![url("http://127.0.0.1:1/derp")]));
    let last = clients.shutdown();
    assert!(last.cancel.is_cancelled());
    assert!(last.tasks.is_empty());
    assert_eq!(last.state(), Lifecycle::Terminated);
}

#[test]
fn two_relays_mesh_with_each_other() {
    let mesh_key: MeshKey = [1; 32];
    let a_url = url("http://127.0.0.1:3340/derp");
    let b_url = url("http://127.0.0.1:3341/derp");
    let mut a = MeshClients::new(mesh_key, key(10), MeshAddrs::Addrs(vec![b_url.clone()]));
    let mut b = MeshClients::new(mesh_key, key(11), MeshAddrs::Addrs(vec![a_url.clone()]));
    let from_a = a.mesh();
    let from_b = b.mesh();
    assert_eq!(from_a.len(), 1);
    assert_eq!(from_b.len(), 1);
    assert_eq!(from_a[0].server_url, b_url);
    assert_eq!(from_b[0].server_url, a_url);
    assert_eq!(from_a[0].mesh_key, from_b[0].mesh_key);
    assert_eq!(from_a[0].server_key.to_bytes(), [10u8; 32]);
    assert_eq!(from_b[0].server_key.to_bytes(), [11u8; 32]);
    let a_last = a.shutdown();
    assert!(a_last.cancel.is_cancelled());
    assert!(!b.cancel_token().is_cancelled());
    let b_last = b.shutdown();
    assert!(b_last.cancel.is_cancelled());
}
