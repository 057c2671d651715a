//! The local endpoint that all connections of one manager share. It is set
//! up on first use, by one caller, while the others wait for the outcome.

use vstd::prelude::*;
use std::sync::Arc;
use crate::address::Endpoint;
use crate::error::ClientError;
use crate::tls::{IdentityView, QuicClientCertificate};

verus! {

/// Where the endpoint is in its life.
#[derive(Clone, Copy, Debug, PartialEq, Eq)]
pub enum EndpointState {
    /// Nobody has asked for the endpoint yet, or the last set-up failed.
    Uninitialized,
    /// One caller is setting the endpoint up; `waiters` more wait for it.
    Initializing { waiters: usize },
    /// The endpoint is bound. This does not change again.
    Ready(Endpoint),
}

/// What a caller who asked for the endpoint has to do.
#[derive(Clone, Copy, Debug, PartialEq, Eq)]
pub enum EndpointAction {
    /// Bind the local socket and report the outcome with `complete`.
    Bind,
    /// Wait for the outcome of the set-up that is running.
    Wait,
    /// Use this endpoint.
    Use(Endpoint),
}

/// How a set-up ended: the outcome, which the caller that bound and every
/// caller that waited receive alike, and the number of those that waited.
#[derive(Clone, Copy, Debug, PartialEq, Eq)]
pub struct Completion {
    pub outcome: Result<Endpoint, ClientError>,
    pub released: usize,
}

/// The lazy endpoint as a value.
pub struct LazyEndpointView {
    pub state: EndpointState,
    /// An endpoint supplied from outside, used in place of binding one.
    pub client_endpoint: Option<Endpoint>,
    /// The identity the endpoint was configured with.
    pub identity: IdentityView,
}

impl LazyEndpointView {
    /// A set-up is only ever running where no endpoint was supplied.
    pub open spec fn wf(self) -> bool {
        self.state is Initializing ==> self.client_endpoint is None
    }

    pub open spec fn with_state(self, state: EndpointState) -> LazyEndpointView {
        LazyEndpointView { state, ..self }
    }

    /// One caller asks for the endpoint: the state after, and what the caller
    /// is told. Only a caller that finds the endpoint uninitialised, with none
    /// supplied, is told to bind.
    pub open spec fn acquire(self) -> (LazyEndpointView, EndpointAction) {
        match self.state {
            EndpointState::Ready(endpoint) => (self, EndpointAction::Use(endpoint)),
            EndpointState::Initializing { waiters } => (
                self.with_state(
                    EndpointState::Initializing {
                        waiters: if waiters < usize::MAX {
                            (waiters + 1) as usize
                        } else {
                            waiters
                        },
                    },
                ),
                EndpointAction::Wait,
            ),
            EndpointState::Uninitialized => match self.client_endpoint {
                Some(endpoint) => (
                    self.with_state(EndpointState::Ready(endpoint)),
                    EndpointAction::Use(endpoint),
                ),
                None => (
                    self.with_state(EndpointState::Initializing { waiters: 0 }),
                    EndpointAction::Bind,
                ),
            },
        }
    }

    /// The caller that was told to bind reports: `bound` is the endpoint, or
    /// nothing where binding failed. Failure leaves the endpoint
    /// uninitialised, so that a later caller may try again. With no set-up
    /// running, nothing changes.
    pub open spec fn complete(self, bound: Option<Endpoint>) -> (LazyEndpointView, Completion) {
        match self.state {
            EndpointState::Initializing { waiters } => match bound {
                Some(endpoint) => (
                    self.with_state(EndpointState::Ready(endpoint)),
                    Completion { outcome: Ok(endpoint), released: waiters },
                ),
                None => (
                    self.with_state(EndpointState::Uninitialized),
                    Completion { outcome: Err(ClientError::EndpointInitError), released: waiters },
                ),
            },
            EndpointState::Ready(endpoint) => (self, Completion { outcome: Ok(endpoint), released: 0 }),
            EndpointState::Uninitialized => (
                self,
                Completion { outcome: Err(ClientError::EndpointInitError), released: 0 },
            ),
        }
    }

    /// One caller, with nobody else about, obtains the endpoint: it asks,
    /// and where it is told to bind it reports at once that binding gave
    /// `bound`. So `bound` is looked at only where the endpoint is
    /// uninitialised and none was supplied. A caller that finds a set-up
    /// running has nobody to wait for, and is refused with nothing changed.
    pub open spec fn resolve(self, bound: Option<Endpoint>) -> (LazyEndpointView, Result<Endpoint, ClientError>) {
        if self.state is Initializing {
            (self, Err(ClientError::EndpointInitError))
        } else {
            let asked = self.acquire();
            match asked.1 {
                EndpointAction::Use(endpoint) => (asked.0, Ok(endpoint)),
                _ => (asked.0.complete(bound).0, asked.0.complete(bound).1.outcome),
            }
        }
    }

    /// Whether a caller that is about to `resolve` has to bind first.
    pub open spec fn needs_bind(self) -> bool {
        self.state is Uninitialized && self.client_endpoint is None
    }

    /// The state after `n` callers have asked, one after the other.
    pub open spec fn after_acquires(self, n: nat) -> LazyEndpointView
        decreases n,
    {
        if n == 0 {
            self
        } else {
            self.after_acquires((n - 1) as nat).acquire().0
        }
    }

    /// What the caller that asks after `k` others is told.
    pub open spec fn action_at(self, k: nat) -> EndpointAction {
        self.after_acquires(k).acquire().1
    }
}

/// The endpoint of one connection manager.
#[derive(Debug)]
pub struct QuicLazyInitializedEndpoint {
    state: EndpointState,
    client_certificate: Arc<QuicClientCertificate>,
    client_endpoint: Option<Endpoint>,
}

impl View for QuicLazyInitializedEndpoint {
    type V = LazyEndpointView;

    closed spec fn view(&self) -> LazyEndpointView {
        LazyEndpointView {
            state: self.state,
            client_endpoint: self.client_endpoint,
            identity: self.client_certificate@,
        }
    }
}

impl QuicLazyInitializedEndpoint {
    /// An endpoint that is not set up yet. Where `client_endpoint` is given,
    /// it is the one that will be used.
    pub fn new(client_certificate: Arc<QuicClientCertificate>, client_endpoint: Option<Endpoint>) -> (r: Self)
        ensures
            r@.state == EndpointState::Uninitialized,
            r@.client_endpoint == client_endpoint,
            r@.identity == client_certificate@,
            r@.wf(),
    {
        QuicLazyInitializedEndpoint { state: EndpointState::Uninitialized, client_certificate, client_endpoint }
    }

    /// Replaces the identity the endpoint is configured with. The state of
    /// the endpoint stays what it is.
    pub fn update_client_certificate(&mut self, client_certificate: Arc<QuicClientCertificate>)
        ensures
            final(self)@ == (LazyEndpointView { identity: client_certificate@, ..old(self)@ }),
    {
        self.client_certificate = client_certificate;
    }

    /// A handle on the identity the endpoint is configured with.
    pub fn client_certificate(&self) -> (identity: Arc<QuicClientCertificate>)
        ensures
            identity@ == self@.identity,
    {
        self.client_certificate.clone()
    }

    pub fn state(&self) -> (state: EndpointState)
        ensures
            state == self@.state,
    {
        self.state
    }

    /// The endpoint, once it is ready.
    pub fn endpoint(&self) -> (endpoint: Option<Endpoint>)
        ensures
            endpoint == (match self@.state {
                EndpointState::Ready(e) => Some(e),
                _ => None,
            }),
    {
        match self.state {
            EndpointState::Ready(e) => Some(e),
            _ => None,
        }
    }

    /// Whether a caller has to bind a socket before `get_endpoint` can succeed.
    pub fn needs_bind(&self) -> (needed: bool)
        ensures
            needed == self@.needs_bind(),
    {
        match self.state {
            EndpointState::Uninitialized => self.client_endpoint.is_none(),
            _ => false,
        }
    }

    /// A caller asks for the endpoint and is told what to do.
    pub fn acquire(&mut self) -> (action: EndpointAction)
        ensures
            final(self)@ == old(self)@.acquire().0,
            action == old(self)@.acquire().1,
            old(self)@.wf() ==> final(self)@.wf(),
    {
        match self.state {
            EndpointState::Ready(endpoint) => EndpointAction::Use(endpoint),
            EndpointState::Initializing { waiters } => {
                let more: usize = if waiters < usize::MAX {
                    waiters + 1
                } else {
                    waiters
                };
                self.state = EndpointState::Initializing { waiters: more };
                EndpointAction::Wait
            },
            EndpointState::Uninitialized => match self.client_endpoint {
                Some(endpoint) => {
                    self.state = EndpointState::Ready(endpoint);
                    EndpointAction::Use(endpoint)
                },
                None => {
                    self.state = EndpointState::Initializing { waiters: 0 };
                    EndpointAction::Bind
                },
            },
        }
    }

    /// The caller that was told to bind reports what binding gave.
    pub fn complete(&mut self, bound: Option<Endpoint>) -> (completion: Completion)
        ensures
            final(self)@ == old(self)@.complete(bound).0,
            completion == old(self)@.complete(bound).1,
            final(self)@.wf(),
    {
        match self.state {
            EndpointState::Initializing { waiters } => match bound {
                Some(endpoint) => {
                    self.state = EndpointState::Ready(endpoint);
                    Completion { outcome: Ok(endpoint), released: waiters }
                },
                None => {
                    self.state = EndpointState::Uninitialized;
                    Completion { outcome: Err(ClientError::EndpointInitError), released: waiters }
                },
            },
            EndpointState::Ready(endpoint) => Completion { outcome: Ok(endpoint), released: 0 },
            EndpointState::Uninitialized => Completion {
                outcome: Err(ClientError::EndpointInitError),
                released: 0,
            },
        }
    }

    /// Obtains the endpoint for a caller that has the manager to itself,
    /// setting it up if need be. `bound` is what binding a socket gave the
    /// caller, or nothing where it failed or was not tried.
    pub fn get_endpoint(&mut self, bound: Option<Endpoint>) -> (r: Result<Endpoint, ClientError>)
        ensures
            final(self)@ == old(self)@.resolve(bound).0,
            r == old(self)@.resolve(bound).1,
            old(self)@.wf() ==> final(self)@.wf(),
    {
        if let EndpointState::Initializing { .. } = self.state {
            return Err(ClientError::EndpointInitError);
        }
        match self.acquire() {
            EndpointAction::Use(endpoint) => Ok(endpoint),
            _ => self.complete(bound).outcome,
        }
    }
}

/// Of `n` callers that ask for an endpoint which is not set up and for which
/// none was supplied, the first is told to bind and every other to wait:
/// there is one bind, never `n`. When the binder reports, the `n - 1` that
/// waited are released with the outcome the binder has. After success the
/// endpoint is ready and whoever asks is given it; after failure the endpoint
/// is as it was before anyone asked, so the next caller binds again.
/// A caller that has the endpoint to itself is the case `n == 1`.
pub proof fn lemma_single_flight(e: LazyEndpointView, n: nat, bound: Option<Endpoint>)
    requires
        e.state is Uninitialized,
        e.client_endpoint is None,
        1 <= n <= usize::MAX,
    ensures
        e.action_at(0) == EndpointAction::Bind,
        forall|k: nat| 1 <= k < n ==> #[trigger] e.action_at(k) == EndpointAction::Wait,
        e.after_acquires(n).state == (EndpointState::Initializing { waiters: (n - 1) as usize }),
        e.after_acquires(n).complete(bound).1.released == n - 1,
        bound matches Some(endpoint) ==> {
            let done = e.after_acquires(n).complete(bound);
            &&& done.1.outcome == Ok::<Endpoint, ClientError>(endpoint)
            &&& done.0.state == EndpointState::Ready(endpoint)
            &&& done.0.acquire() == (done.0, EndpointAction::Use(endpoint))
        },
        bound is None ==> {
            let done = e.after_acquires(n).complete(bound);
            &&& done.1.outcome == Err::<Endpoint, ClientError>(ClientError::EndpointInitError)
            &&& done.0 == e
            &&& done.0.action_at(0) == EndpointAction::Bind
        },
        e.resolve(bound) == (
            e.after_acquires(1).complete(bound).0,
            e.after_acquires(1).complete(bound).1.outcome,
        ),
{
    lemma_acquires_while_initializing(e, n);
    assert(e.after_acquires(0) == e);
    assert(e.after_acquires(1) == e.acquire().0);
    assert forall|k: nat| 1 <= k < n implies #[trigger] e.action_at(k) == EndpointAction::Wait by {
        lemma_acquires_while_initializing(e, k);
    }
}

/// After `n >= 1` callers have asked for an endpoint that was not set up, one
/// set-up is running and `n - 1` callers wait for it.
proof fn lemma_acquires_while_initializing(e: LazyEndpointView, n: nat)
    requires
        e.state is Uninitialized,
        e.client_endpoint is None,
        1 <= n <= usize::MAX,
    ensures
        e.after_acquires(n) == e.with_state(EndpointState::Initializing { waiters: (n - 1) as usize }),
    decreases n,
{
    if n == 1 {
        assert(e.after_acquires(0) == e);
    } else {
        lemma_acquires_while_initializing(e, (n - 1) as nat);
    }
}

} // verus!
