//! The mesh client manager: it decides which connections are started and
//! keeps the record of them, and on shutdown raises the cancellation signal
//! and hands every started connection over to be joined.
//!
//! The connections themselves run elsewhere. What the manager gives out is
//! the setup of each connection to start; what it keeps is the endpoint of
//! each connection it has asked for, oldest first.
//!
//! A manager is created, meshes any number of times, and is shut down once:
//! [`MeshClients::shutdown`] takes the manager and leaves a [`Shutdown`],
//! which is terminated as soon as nothing is left to join.
use crate::addrs::MeshAddrs;
use crate::cancel::{cancel_requested, request_cancel};
use reqwest::Url;
use tokio_util::sync::CancellationToken;
use vstd::prelude::*;

verus! {

/// The secret shared by the relays of one mesh network.
pub type MeshKey = [u8; 32];

/// The secret key by which a relay is known to the relays it connects to.
pub struct SecretKey {
    bytes: [u8; 32],
}

impl View for SecretKey {
    type V = Seq<u8>;

    closed spec fn view(&self) -> Seq<u8> {
        self.bytes@
    }
}

impl SecretKey {
    pub fn from_bytes(bytes: [u8; 32]) -> (key: SecretKey)
        ensures
            key@ == bytes@,
    {
        SecretKey { bytes }
    }

    pub fn to_bytes(&self) -> (bytes: [u8; 32])
        ensures
            bytes@ == self@,
    {
        self.bytes
    }

    /// A second handle on the same key.
    pub fn duplicate(&self) -> (key: SecretKey)
        ensures
            key == *self,
    {
        SecretKey { bytes: self.bytes }
    }
}

/// Where a manager stands in its life. It only ever moves forward.
#[derive(Clone, Copy, Debug, PartialEq, Eq, Structural)]
pub enum Lifecycle {
    /// Made, and not asked to mesh yet.
    Created,
    /// Asked to mesh at least once.
    Meshing,
    /// Shut down, with connections left to join.
    ShuttingDown,
    /// Shut down, with nothing left to join.
    Terminated,
}

/// What it takes to start one mesh connection: the mesh secret, the endpoint
/// to connect to, and the key to connect with.
pub struct MeshClientConfig {
    pub mesh_key: MeshKey,
    pub server_url: Url,
    pub server_key: SecretKey,
}

/// The endpoints of `configs`, in order.
pub open spec fn config_urls(configs: Seq<MeshClientConfig>) -> Seq<Url> {
    Seq::new(configs.len(), |i: int| configs[i].server_url)
}

/// Spawns, connects, and manages the mesh clients of a relay server: the
/// clients through which packets reach peers that are connected to another
/// relay of the mesh.
pub struct MeshClients {
    tasks: Vec<Url>,
    meshing: bool,
    mesh_key: MeshKey,
    server_key: SecretKey,
    mesh_addrs: MeshAddrs,
    cancel: CancellationToken,
}

/// A manager as contracts see it.
pub struct MeshClientsView {
    /// The endpoint of each connection started so far, oldest first.
    pub tasks: Seq<Url>,
    pub mesh_key: MeshKey,
    pub server_key: SecretKey,
    pub mesh_addrs: MeshAddrs,
    /// Whether the cancellation signal has been raised.
    pub cancelled: bool,
    /// `Created` or `Meshing`.
    pub lifecycle: Lifecycle,
}

/// What is left of a manager that was shut down: the cancellation signal,
/// raised, and the endpoints of the connections that are still to be joined.
pub struct Shutdown {
    pub cancel: CancellationToken,
    pub tasks: Vec<Url>,
}

impl Shutdown {
    /// `ShuttingDown` while a connection is left to join, `Terminated` from
    /// then on.
    pub open spec fn lifecycle(&self) -> Lifecycle {
        if self.tasks@.len() == 0 {
            Lifecycle::Terminated
        } else {
            Lifecycle::ShuttingDown
        }
    }

    /// Where the shutdown stands.
    pub fn state(&self) -> (state: Lifecycle)
        ensures
            state == self.lifecycle(),
    {
        if self.tasks.len() == 0 {
            Lifecycle::Terminated
        } else {
            Lifecycle::ShuttingDown
        }
    }

    /// Takes note that every connection has been joined: nothing is left to
    /// join, and the manager is terminated. The signal stays raised.
    pub fn all_joined(&mut self)
        ensures
            final(self).tasks@ == Seq::<Url>::empty(),
            final(self).cancel == old(self).cancel,
            final(self).lifecycle() == Lifecycle::Terminated,
    {
        self.tasks.clear();
    }
}

impl View for MeshClients {
    type V = MeshClientsView;

    closed spec fn view(&self) -> MeshClientsView {
        MeshClientsView {
            tasks: self.tasks@,
            mesh_key: self.mesh_key,
            server_key: self.server_key,
            mesh_addrs: self.mesh_addrs,
            cancelled: cancel_requested(self.cancel),
            lifecycle: if self.meshing {
                Lifecycle::Meshing
            } else {
                Lifecycle::Created
            },
        }
    }
}

/// One round of meshing took the manager from `pre` to `post` and started
/// `started`: the addresses resolve to the endpoints of `started`, each
/// connection is set up with the manager's mesh secret and key, the endpoints
/// are added to the record behind those that were there, the manager is
/// meshing from then on, and nothing else changes.
pub open spec fn meshed(pre: MeshClientsView, post: MeshClientsView, started: Seq<MeshClientConfig>) -> bool {
    &&& pre.mesh_addrs.resolves_to(config_urls(started))
    &&& started.len() == pre.mesh_addrs.endpoint_count()
    &&& forall|i: int|
        0 <= i < started.len() ==> (#[trigger] started[i]).mesh_key == pre.mesh_key && started[i].server_key
            == pre.server_key
    &&& post == MeshClientsView {
        tasks: pre.tasks + config_urls(started),
        lifecycle: Lifecycle::Meshing,
        ..pre
    }
}

impl MeshClients {
    /// A manager that has started no connection and raised no signal.
    pub fn new(mesh_key: MeshKey, server_key: SecretKey, mesh_addrs: MeshAddrs) -> (clients: MeshClients)
        ensures
            clients@ == (MeshClientsView {
                tasks: Seq::empty(),
                mesh_key,
                server_key,
                mesh_addrs,
                cancelled: false,
                lifecycle: Lifecycle::Created,
            }),
    {
        MeshClients {
            tasks: Vec::new(),
            meshing: false,
            cancel: CancellationToken::new(),
            mesh_key,
            server_key,
            mesh_addrs,
        }
    }

    /// Whether the manager's addresses can be resolved, which is what
    /// [`MeshClients::mesh`] asks for.
    pub fn can_mesh(&self) -> (ok: bool)
        ensures
            ok == self@.mesh_addrs.rewritable(),
    {
        self.mesh_addrs.is_rewritable()
    }

    /// Where the manager stands: created, or meshing.
    pub fn lifecycle(&self) -> (state: Lifecycle)
        ensures
            state == self@.lifecycle,
    {
        if self.meshing {
            Lifecycle::Meshing
        } else {
            Lifecycle::Created
        }
    }

    /// The number of connections started so far.
    pub fn task_count(&self) -> (count: usize)
        ensures
            count == self@.tasks.len(),
    {
        self.tasks.len()
    }

    /// The endpoint of each connection started so far, oldest first.
    pub fn tasks(&self) -> (tasks: &Vec<Url>)
        ensures
            tasks@ == self@.tasks,
    {
        &self.tasks
    }

    /// The cancellation signal, for those who are to watch it.
    pub fn cancel_token(&self) -> (token: &CancellationToken)
        ensures
            cancel_requested(*token) == self@.cancelled,
    {
        &self.cancel
    }

    /// The addresses that the manager meshes with.
    pub fn mesh_addrs(&self) -> (mesh_addrs: &MeshAddrs)
        ensures
            *mesh_addrs == self@.mesh_addrs,
    {
        &self.mesh_addrs
    }

    /// Resolves the addresses and returns the setup of one connection for
    /// each endpoint, in order. Every call starts them all: an endpoint that
    /// has a connection already gets one more.
    pub fn mesh(&mut self) -> (started: Vec<MeshClientConfig>)
        requires
            old(self)@.mesh_addrs.rewritable(),
        ensures
            meshed(old(self)@, final(self)@, started@),
    {
        let addrs = self.mesh_addrs.resolve();
        let ghost before = self.tasks@;
        self.meshing = true;
        let mut started: Vec<MeshClientConfig> = Vec::new();
        let mut i: usize = 0;
        while i < addrs.len()
            invariant
                i <= addrs@.len(),
                started@.len() == i,
                self.mesh_key == old(self).mesh_key,
                self.server_key == old(self).server_key,
                self.mesh_addrs == old(self).mesh_addrs,
                self.cancel == old(self).cancel,
                self.meshing,
                self.tasks@ == before + addrs@.take(i as int),
                forall|k: int|
                    0 <= k < i ==> {
                        &&& (#[trigger] started@[k]).server_url == addrs@[k]
                        &&& started@[k].mesh_key == self.mesh_key
                        &&& started@[k].server_key == self.server_key
                    },
            decreases addrs@.len() - i,
        {
            let addr = addrs[i].clone();
            let config = MeshClientConfig {
                mesh_key: self.mesh_key,
                server_url: addrs[i].clone(),
                server_key: self.server_key.duplicate(),
            };
            started.push(config);
            self.tasks.push(addr);
            i += 1;
            proof {
                assert(addrs@.take(i as int) == addrs@.take(i - 1).push(addrs@[i - 1]));
            }
        }
        proof {
            assert(addrs@.take(i as int) == addrs@);
            assert(config_urls(started@) == addrs@);
        }
        started
    }

    /// As [`MeshClients::mesh`], where the addresses can be resolved. Where
    /// they cannot, nothing is started and the manager stays as it is.
    pub fn try_mesh(&mut self) -> (started: Option<Vec<MeshClientConfig>>)
        ensures
            started is Some <==> old(self)@.mesh_addrs.rewritable(),
            started matches Some(configs) ==> meshed(old(self)@, final(self)@, configs@),
            started is None ==> final(self)@ == old(self)@,
    {
        if self.can_mesh() {
            Some(self.mesh())
        } else {
            None
        }
    }

    /// Shuts the manager down: raises the cancellation signal and hands over
    /// the record of every connection that was started, so that each of them
    /// is joined. A manager that has started none is terminated at once.
    pub fn shutdown(self) -> (last: Shutdown)
        ensures
            cancel_requested(last.cancel),
            last.tasks@ == self@.tasks,
            last.lifecycle() == if self@.tasks.len() == 0 {
                Lifecycle::Terminated
            } else {
                Lifecycle::ShuttingDown
            },
    {
        let mut cancel = self.cancel;
        request_cancel(&mut cancel);
        Shutdown { cancel, tasks: self.tasks }
    }
}

/// Meshing again adds up. Two rounds of meshing leave the record with what
/// was there before, then the endpoints of the first round, then those of the
/// second: as many entries as were started, equal endpoints counted as often
/// as they were started.
pub proof fn lemma_remesh_adds_up(
    first: MeshClientsView,
    second: MeshClientsView,
    third: MeshClientsView,
    round_one: Seq<MeshClientConfig>,
    round_two: Seq<MeshClientConfig>,
)
    requires
        meshed(first, second, round_one),
        meshed(second, third, round_two),
    ensures
        third.tasks == first.tasks + config_urls(round_one) + config_urls(round_two),
        third.tasks.len() == first.tasks.len() + round_one.len() + round_two.len(),
        round_one.len() == first.mesh_addrs.endpoint_count(),
        round_two.len() == first.mesh_addrs.endpoint_count(),
        third.mesh_addrs == first.mesh_addrs,
        third.cancelled == first.cancelled,
        third.lifecycle == Lifecycle::Meshing,
{
}

} // verus!
