//! The runtime capability interface and its default pluggable
//! implementation.
//!
//! A guest execution session holds one [`WasiRuntime`] and queries it at
//! each syscall boundary for the capability it needs.  Networking and the
//! task manager are total — every runtime has them, with "unsupported"
//! represented by a provider that refuses operations, never by a missing
//! value.  HTTP, TTY and a dedicated compilation engine are optional:
//! absence is an explicit, legitimate state the caller branches on, not a
//! failure.

use vstd::prelude::*;

use crate::engine::{
    engine_default, store_built_default, store_built_with, store_default, store_with_engine,
};
use crate::net::NetworkingProvider;
use crate::task::VirtualTaskManager;
use crate::tty::{DefaultTty, TtyBridge};

verus! {

/// An injected request-executing dependency.  This layer owns only its
/// presence/absence contract; the handle names the concrete client for the
/// embedder, which maps it back to the real backend outside this layer.
#[derive(Clone, Copy, PartialEq, Eq, Structural, Debug)]
pub struct HttpClient {
    pub backend: u64,
}

/// A runtime was asked to assemble a configuration this deployment cannot
/// support.  This is the one failure that halts startup: proceeding would
/// yield a runtime that silently cannot execute anything.
#[derive(Clone, Copy, PartialEq, Eq, Structural, Debug)]
pub enum ConstructionError {
    /// The deployment has no implicit task manager to default to.
    NoDefaultTaskManager,
}

/// The capability interface a guest execution session queries for every
/// host resource.  Networking and the task manager never signal absence;
/// the optional capabilities return `None` exactly when the runtime holds
/// no provider for them.
pub trait WasiRuntime: Sized {
    /// The TTY bridge implementation this runtime hands out.
    type Tty: TtyBridge;

    /// The networking provider this runtime was assembled with.
    spec fn networking_view(&self) -> NetworkingProvider;

    /// The task manager this runtime was assembled with.
    spec fn task_manager_view(&self) -> VirtualTaskManager;

    /// The HTTP client granted to this runtime, if any.
    spec fn http_client_view(&self) -> Option<HttpClient>;

    /// The TTY bridge granted to this runtime, if any.
    spec fn tty_view(&self) -> Option<Self::Tty>;

    /// The dedicated compilation engine configured for this runtime, if
    /// any.
    spec fn engine_view(&self) -> Option<wasmer::Engine>;

    /// Access to all networking related functions such as sockets.  Total:
    /// a runtime without networking hands out the "unsupported" provider,
    /// whose operations fail explicitly when attempted.
    fn networking(&self) -> (r: &NetworkingProvider)
        ensures
            *r == self.networking_view(),
    ;

    /// The active virtual task manager.  Total: every runtime must have
    /// one, since all execution depends on it.
    fn task_manager(&self) -> (r: &VirtualTaskManager)
        ensures
            *r == self.task_manager_view(),
    ;

    /// Exactly the HTTP client this runtime holds, or `None` when no HTTP
    /// capability was granted — a legitimate state, distinct from any
    /// networking or scheduling failure, which callers branch on before
    /// issuing HTTP work.
    fn http_client(&self) -> (r: Option<&HttpClient>)
        ensures
            match r {
                Some(c) => self.http_client_view() == Some(*c),
                None => self.http_client_view() is None,
            },
    ;

    /// Exactly the TTY bridge this runtime holds, or `None` when this
    /// deployment has no terminal.
    fn tty(&self) -> (r: Option<&Self::Tty>)
        ensures
            match r {
                Some(t) => self.tty_view() == Some(*t),
                None => self.tty_view() is None,
            },
    ;

    /// Exactly the dedicated compilation engine this runtime holds, or
    /// `None` when the default store construction path is to be used.
    fn engine(&self) -> (r: Option<&wasmer::Engine>)
        ensures
            match r {
                Some(e) => self.engine_view() == Some(*e),
                None => self.engine_view() is None,
            },
    ;

    /// A fresh execution context for a new guest instantiation.  Total:
    /// built from the dedicated engine where one was configured, and from
    /// the process-default engine otherwise — the contract pins which
    /// construction path produced the store.
    fn new_store(&self) -> (r: wasmer::Store)
        ensures
            self.engine_view() is Some ==> store_built_with(r, self.engine_view()->0),
            self.engine_view() is None ==> store_built_default(r),
    ;
}

/// The default pluggable runtime: one concrete assembly of independently
/// swappable capability providers plus one task manager.
///
/// Every provider defaults to the conservative choice — "unsupported"
/// networking, no HTTP client, no dedicated engine, the in-memory TTY —
/// and explicit setters replace providers before the runtime is handed to
/// any execution session.  Once sessions are live, capability identities
/// stay stable: there is no concurrent-safe hot-swap.
pub struct PluggableRuntimeImplementation {
    pub rt: VirtualTaskManager,
    pub networking: NetworkingProvider,
    pub http_client: Option<HttpClient>,
    pub engine: Option<wasmer::Engine>,
    pub tty: DefaultTty,
}

impl PluggableRuntimeImplementation {
    /// Assemble a runtime around the given task manager, with every other
    /// capability at its conservative default: networking unsupported, no
    /// HTTP client, no dedicated engine, the in-memory TTY bridge.
    ///
    /// The task manager is mandatory: task-spawning strategy is a
    /// deployment decision no constructor may silently fabricate.
    pub fn new(rt: VirtualTaskManager) -> (r: Self)
        ensures
            r.rt == rt,
            r.networking is Unsupported,
            r.http_client is None,
            r.engine is None,
    {
        PluggableRuntimeImplementation {
            rt,
            networking: NetworkingProvider::unsupported(),
            http_client: None,
            engine: None,
            tty: DefaultTty::new(),
        }
    }

    /// The zero-argument construction path, for deployments that have an
    /// implicit task manager to offer.  Where the deployment has none, this
    /// refuses to produce a runtime — failing loudly at startup instead of
    /// silently degrading to a runtime that cannot execute anything.  The
    /// runtime it does build carries the process-default compilation
    /// engine, so `engine()` reports a present engine on this path.
    pub fn try_default(implicit_rt: Option<VirtualTaskManager>) -> (r: Result<
        Self,
        ConstructionError,
    >)
        ensures
            match r {
                Ok(built) => {
                    &&& implicit_rt is Some
                    &&& built.rt == implicit_rt->0
                    &&& built.networking is Unsupported
                    &&& built.http_client is None
                    &&& built.engine is Some
                },
                Err(e) => {
                    &&& implicit_rt is None
                    &&& e == ConstructionError::NoDefaultTaskManager
                },
            },
    {
        match implicit_rt {
            Some(rt) => {
                let mut built = Self::new(rt);
                built.engine = Some(engine_default());
                Ok(built)
            },
            None => Err(ConstructionError::NoDefaultTaskManager),
        }
    }

    /// Replace the networking provider.  To be done before the runtime is
    /// handed to any execution session.
    pub fn set_networking_implementation(&mut self, net: NetworkingProvider)
        ensures
            final(self).networking == net,
            final(self).rt == old(self).rt,
            final(self).http_client == old(self).http_client,
            final(self).engine == old(self).engine,
            final(self).tty == old(self).tty,
    {
        self.networking = net;
    }

    /// Configure, or clear, the dedicated compilation engine.
    pub fn set_engine(&mut self, engine: Option<wasmer::Engine>)
        ensures
            final(self).engine == engine,
            final(self).rt == old(self).rt,
            final(self).networking == old(self).networking,
            final(self).http_client == old(self).http_client,
            final(self).tty == old(self).tty,
    {
        self.engine = engine;
    }

    /// Grant, or revoke, the HTTP client capability.
    pub fn set_http_client(&mut self, http_client: Option<HttpClient>)
        ensures
            final(self).http_client == http_client,
            final(self).rt == old(self).rt,
            final(self).networking == old(self).networking,
            final(self).engine == old(self).engine,
            final(self).tty == old(self).tty,
    {
        self.http_client = http_client;
    }

    /// Replace the TTY bridge.
    pub fn set_tty(&mut self, tty: DefaultTty)
        ensures
            final(self).tty == tty,
            final(self).rt == old(self).rt,
            final(self).networking == old(self).networking,
            final(self).http_client == old(self).http_client,
            final(self).engine == old(self).engine,
    {
        self.tty = tty;
    }

    /// The task manager, for spawning: spawn, completion and reclamation
    /// act on the manager's state, so they need it exclusively.
    pub fn task_manager_mut(&mut self) -> (r: &mut VirtualTaskManager)
        ensures
            *r == old(self).rt,
            final(self).rt == *final(r),
            final(self).networking == old(self).networking,
            final(self).http_client == old(self).http_client,
            final(self).engine == old(self).engine,
            final(self).tty == old(self).tty,
    {
        &mut self.rt
    }
}

impl WasiRuntime for PluggableRuntimeImplementation {
    type Tty = DefaultTty;

    open spec fn networking_view(&self) -> NetworkingProvider {
        self.networking
    }

    open spec fn task_manager_view(&self) -> VirtualTaskManager {
        self.rt
    }

    open spec fn http_client_view(&self) -> Option<HttpClient> {
        self.http_client
    }

    open spec fn tty_view(&self) -> Option<DefaultTty> {
        Some(self.tty)
    }

    open spec fn engine_view(&self) -> Option<wasmer::Engine> {
        self.engine
    }

    fn networking(&self) -> (r: &NetworkingProvider) {
        &self.networking
    }

    fn task_manager(&self) -> (r: &VirtualTaskManager) {
        &self.rt
    }

    fn http_client(&self) -> (r: Option<&HttpClient>) {
        match &self.http_client {
            Some(c) => Some(c),
            None => None,
        }
    }

    fn tty(&self) -> (r: Option<&DefaultTty>) {
        Some(&self.tty)
    }

    fn engine(&self) -> (r: Option<&wasmer::Engine>) {
        match &self.engine {
            Some(e) => Some(e),
            None => None,
        }
    }

    fn new_store(&self) -> (r: wasmer::Store) {
        match &self.engine {
            Some(e) => store_with_engine(e),
            None => store_default(),
        }
    }
}

/// Totality of the universal capabilities: a constructed pluggable runtime
/// answers for networking and for its task manager with the very providers
/// it was assembled with — absence is expressed inside the networking
/// provider, never by a missing value — while the optional capabilities
/// answer with exactly the stored client, bridge and engine, HTTP staying
/// absent until a client is injected.
pub proof fn lemma_constructed_runtime_capabilities(r: PluggableRuntimeImplementation)
    ensures
        r.networking_view() == r.networking,
        r.task_manager_view() == r.rt,
        r.http_client_view() == r.http_client,
        r.tty_view() == Some(r.tty),
        r.engine_view() == r.engine,
{
}

} // verus!
