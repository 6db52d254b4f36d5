//! Networking capability: a virtual networking provider chosen by the
//! embedder.  The provider itself is an injected backend; this layer owns
//! only its presence/absence contract — absence is the conservative default,
//! represented by a real "unsupported" stub whose every operation fails with
//! an explicit capability error, never a panic and never a hang.

use vstd::prelude::*;

verus! {

/// An operation was attempted through a capability that this deployment did
/// not grant, or the granted backend refused it.
#[derive(Clone, Copy, PartialEq, Eq, Structural, Debug)]
pub enum CapabilityError {
    /// The capability (or this operation of it) is not available here.
    Unavailable,
    /// The backend is present but failed the operation for its own reasons.
    Backend,
}

#[verifier::external_type_specification]
#[verifier::external_body]
pub struct ExUnsupportedVirtualNetworking(wasmer_vnet::UnsupportedVirtualNetworking);

#[verifier::external_type_specification]
#[verifier::external_body]
pub struct ExLocalNetworking(wasmer_wasi_local_networking::LocalNetworking);

/// Relies on wasmer_vnet::UnsupportedVirtualNetworking being an empty,
/// stateless stub with a derived Default.
#[verifier::external_body]
fn unsupported_networking_default() -> wasmer_vnet::UnsupportedVirtualNetworking {
    wasmer_vnet::UnsupportedVirtualNetworking::default()
}

/// Relies on wasmer_wasi_local_networking::LocalNetworking being a stateless
/// handle to the host's socket namespace, with a derived Default.
#[verifier::external_body]
fn local_networking_default() -> wasmer_wasi_local_networking::LocalNetworking {
    wasmer_wasi_local_networking::LocalNetworking::default()
}

/// Relies on wasmer_vnet::UnsupportedVirtualNetworking::unbridge, which
/// returns Err(NetworkError::Unsupported) on every call.
#[verifier::external_body]
fn unsupported_unbridge(net: &wasmer_vnet::UnsupportedVirtualNetworking) -> (r: Result<(), CapabilityError>)
    ensures
        r is Err,
        r->Err_0 == CapabilityError::Unavailable,
{
    match wasmer_vnet::VirtualNetworking::unbridge(net) {
        Ok(()) => Ok(()),
        Err(wasmer_vnet::NetworkError::Unsupported) => Err(CapabilityError::Unavailable),
        Err(_) => Err(CapabilityError::Backend),
    }
}

/// Relies on wasmer_wasi_local_networking::LocalNetworking::unbridge, which
/// returns Err(NetworkError::Unsupported) on every call (the local backend
/// serves sockets, not bridging).
#[verifier::external_body]
fn local_unbridge(net: &wasmer_wasi_local_networking::LocalNetworking) -> (r: Result<(), CapabilityError>)
    ensures
        r is Err,
        r->Err_0 == CapabilityError::Unavailable,
{
    match wasmer_vnet::VirtualNetworking::unbridge(net) {
        Ok(()) => Ok(()),
        Err(wasmer_vnet::NetworkError::Unsupported) => Err(CapabilityError::Unavailable),
        Err(_) => Err(CapabilityError::Backend),
    }
}

/// The networking provider of a runtime: either the conservative
/// "unsupported" stub, or the host's local socket backend.  The capability
/// is total — every runtime has a provider — so callers never null-check;
/// they call through and receive explicit per-operation failures where the
/// provider grants nothing.
pub enum NetworkingProvider {
    Unsupported(wasmer_vnet::UnsupportedVirtualNetworking),
    Local(wasmer_wasi_local_networking::LocalNetworking),
}

impl NetworkingProvider {
    /// The conservative default: a provider that grants nothing.
    pub fn unsupported() -> (r: NetworkingProvider)
        ensures
            r is Unsupported,
    {
        NetworkingProvider::Unsupported(unsupported_networking_default())
    }

    /// The host's local socket namespace.
    pub fn local() -> (r: NetworkingProvider)
        ensures
            r is Local,
    {
        NetworkingProvider::Local(local_networking_default())
    }

    /// Whether a concrete backend (rather than the stub) stands behind this
    /// provider.
    pub fn has_backend(&self) -> (r: bool)
        ensures
            r == (self is Local),
    {
        match self {
            NetworkingProvider::Unsupported(_) => false,
            NetworkingProvider::Local(_) => true,
        }
    }

    /// Detach this endpoint from any bridged remote network.
    ///
    /// Neither the stub nor the local backend implements bridging, so the
    /// operation fails with an explicit capability error — in particular, an
    /// operation attempted through the unsupported provider reports
    /// unavailability rather than panicking or hanging.
    pub fn unbridge(&self) -> (r: Result<(), CapabilityError>)
        ensures
            r == Err::<(), CapabilityError>(CapabilityError::Unavailable),
    {
        match self {
            NetworkingProvider::Unsupported(net) => unsupported_unbridge(net),
            NetworkingProvider::Local(net) => local_unbridge(net),
        }
    }

    /// The local backend, where one is present, for the embedder to drive
    /// real socket operations with.
    pub fn as_local(&self) -> (r: Option<&wasmer_wasi_local_networking::LocalNetworking>)
        ensures
            r is Some <==> self is Local,
    {
        match self {
            NetworkingProvider::Local(net) => Some(net),
            NetworkingProvider::Unsupported(_) => None,
        }
    }
}

} // verus!
