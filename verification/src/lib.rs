//! Mesh membership for a packet relay: which peer relays to connect to, one
//! connection for each of them, and the shutdown of all of them.
pub mod addrs;
pub mod cancel;
pub mod clients;
pub mod endpoint;
pub mod topology;

pub use addrs::MeshAddrs;
pub use clients::{Lifecycle, MeshClientConfig, MeshClients, MeshKey, SecretKey, Shutdown};
pub use topology::{DerpMap, DerpNode, DerpRegion};
