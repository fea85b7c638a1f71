//! The credential store: one slot shared by every in-flight call on a
//! connection, with atomic snapshot reads and atomic whole-value writes.
//!
//! Readers may legitimately act on a snapshot that a moment later becomes
//! stale; the slot imposes no ordering between a write and a read that
//! started before it. Whichever successful authentication writes last wins
//! the slot.

use vstd::prelude::*;
use vstd::rwlock::RwLock;
use crate::creds::{spec_resolve, resolve_issuer_reply, Credentials, IssuerReply, JwtState};
use crate::creds::IssuerReplyView;
use crate::errors::{Error, ErrorView};
use crate::EXPIRY_FLOOR_MILLIS;

verus! {

/// The shared slot holding the connection's current credential state.
pub struct CredentialStore {
    slot: RwLock<Credentials, spec_fn(Credentials) -> bool>,
}

/// The token a completed authentication round trip says to attach, or the
/// failure it surfaces.
pub open spec fn spec_complete(reply: IssuerReplyView, now_millis: int) -> Result<
    Seq<char>,
    ErrorView,
> {
    match spec_resolve(reply, now_millis) {
        Ok(state) => Ok(state->Authenticated_jwt),
        Err(e) => Err(e),
    }
}

/// The model of an exec-level completion result.
pub open spec fn completion_view(r: Result<String, Error>) -> Result<Seq<char>, ErrorView> {
    match r {
        Ok(jwt) => Ok(jwt@),
        Err(e) => Err(e@),
    }
}

impl CredentialStore {
    /// Any credential value may sit in the slot.
    pub closed spec fn wf(&self) -> bool {
        forall|c: Credentials| #[trigger] self.slot.inv(c)
    }

    /// A fresh store, seeded with the configured credential.
    pub fn new(initial: Credentials) -> (store: Self)
        ensures
            store.wf(),
    {
        CredentialStore { slot: RwLock::new(initial, Ghost(|c: Credentials| true)) }
    }

    /// An atomic snapshot of the current state: concurrent readers never
    /// observe a torn value.
    pub fn read(&self) -> (c: Credentials) {
        let handle = self.slot.acquire_read();
        let c = handle.borrow().clone();
        handle.release_read();
        c
    }

    /// Atomically replace the whole stored value.
    pub fn write(&self, c: Credentials)
        requires
            self.wf(),
    {
        let (_previous, handle) = self.slot.acquire_write();
        handle.release_write(c);
    }

    /// Fold an issuer reply into the store: exactly one write on success
    /// (the fresh state replaces the slot's whole value), none on failure.
    /// Returns the token the forwarded call must carry, or the failure that
    /// becomes the call's result.
    pub fn complete_auth(&self, reply: &IssuerReply, now_millis: i64) -> (r: Result<
        String,
        Error,
    >)
        requires
            self.wf(),
            now_millis + EXPIRY_FLOOR_MILLIS <= i64::MAX,
        ensures
            completion_view(r) == spec_complete(reply@, now_millis as int),
    {
        match resolve_issuer_reply(reply, now_millis) {
            Ok(state) => {
                let jwt = match &state {
                    JwtState::Authenticated { jwt, .. } => jwt.clone(),
                    JwtState::Initial { .. } => {
                        proof {
                            assert(false);
                        }
                        String::new()
                    },
                };
                self.write(Credentials::Token(state));
                Ok(jwt)
            },
            Err(e) => Err(e),
        }
    }
}

} // verus!
