//! The steps of an external login or registration: call the account
//! service, reuse or provision the user's API key, write the local user
//! row, and mint the session token for it. The caller performs each step
//! and hands its result back.

use vstd::prelude::*;
use crate::auth::{ApiError, ErrorKind, UserRecord};
use crate::newapi::ExternalIdentity;

verus! {

/// Which flow runs.
pub enum AuthFlowKind {
    Login,
    Register,
}

/// Where a flow stands.
pub enum AuthStage {
    AwaitingUpstream,
    AwaitingStoredUser,
    AwaitingProvisionedKey,
    AwaitingUserWrite,
    Finished,
}

/// What the flow asks for next.
pub enum AuthAction {
    /// Log in or register at the account service.
    CallUpstream,
    /// Read the local row tied to this external id.
    LookupStoredUser(String),
    /// Make sure the user has an API key at the service.
    ProvisionKey,
    /// Write the local row of this identity with this key.
    WriteUser(ExternalIdentity, Option<String>),
    /// Mint the session token for this local user.
    MintToken(i32),
    /// Answer with this error.
    Fail(ApiError),
}

/// An external login or registration in progress.
pub struct AuthFlow {
    kind: AuthFlowKind,
    stage: AuthStage,
    identity: Option<ExternalIdentity>,
}

/// The error kind of a failure at the account service: a failed login, or
/// a malformed registration.
pub open spec fn upstream_error_kind(kind: AuthFlowKind) -> ErrorKind {
    match kind {
        AuthFlowKind::Login => ErrorKind::LoginFail,
        AuthFlowKind::Register => ErrorKind::MalformedRequest,
    }
}

fn upstream_failure(kind: &AuthFlowKind, reason: String) -> (r: ApiError)
    ensures
        r.error == upstream_error_kind(*kind),
        r.reason == reason,
{
    match kind {
        AuthFlowKind::Login => ApiError { error: ErrorKind::LoginFail, reason },
        AuthFlowKind::Register => ApiError { error: ErrorKind::MalformedRequest, reason },
    }
}

impl AuthFlow {
    /// Which flow this is.
    pub closed spec fn kind(self) -> AuthFlowKind {
        self.kind
    }

    /// Where the flow stands.
    pub closed spec fn stage(self) -> AuthStage {
        self.stage
    }

    /// The identity the service gave, until the row is written.
    pub closed spec fn identity(self) -> Option<ExternalIdentity> {
        self.identity
    }

    /// An identity is held exactly while the key is being found.
    pub closed spec fn wf(self) -> bool {
        (self.stage is AwaitingStoredUser || self.stage is AwaitingProvisionedKey) <==> self.identity is Some
    }

    /// Starts a flow by calling the account service.
    pub fn start(kind: AuthFlowKind) -> (r: (AuthFlow, AuthAction))
        ensures
            r.0.wf(),
            r.0.kind() == kind,
            r.0.stage() is AwaitingUpstream,
            r.1 is CallUpstream,
    {
        (AuthFlow { kind, stage: AuthStage::AwaitingUpstream, identity: None }, AuthAction::CallUpstream)
    }

    /// The service answered: a failure is answered as a failed login or a
    /// malformed registration; a login then reads the stored row of the
    /// identity, a registration provisions a key.
    pub fn on_upstream(&mut self, result: Result<ExternalIdentity, String>) -> (r: AuthAction)
        requires
            old(self).wf(),
            old(self).stage() is AwaitingUpstream,
        ensures
            final(self).wf(),
            final(self).kind() == old(self).kind(),
            result matches Err(m) ==> (final(self).stage() is Finished && (r matches AuthAction::Fail(e)
                && e.error == upstream_error_kind(old(self).kind()) && e.reason == m)),
            result matches Ok(id) ==> (final(self).identity() == Some(id) && match old(self).kind() {
                AuthFlowKind::Login => final(self).stage() is AwaitingStoredUser
                    && (r matches AuthAction::LookupStoredUser(x) && x == id.external_user_id),
                AuthFlowKind::Register => final(self).stage() is AwaitingProvisionedKey
                    && r is ProvisionKey,
            }),
    {
        match result {
            Err(reason) => {
                self.stage = AuthStage::Finished;
                AuthAction::Fail(upstream_failure(&self.kind, reason))
            },
            Ok(identity) => {
                let action = match self.kind {
                    AuthFlowKind::Login => {
                        self.stage = AuthStage::AwaitingStoredUser;
                        AuthAction::LookupStoredUser(identity.external_user_id.clone())
                    },
                    AuthFlowKind::Register => {
                        self.stage = AuthStage::AwaitingProvisionedKey;
                        AuthAction::ProvisionKey
                    },
                };
                self.identity = Some(identity);
                action
            },
        }
    }

    /// The stored row was read: its API key is reused where it has one,
    /// else a key is provisioned; a database failure is internal.
    pub fn on_stored_user(&mut self, result: Result<Option<UserRecord>, String>) -> (r: AuthAction)
        requires
            old(self).wf(),
            old(self).stage() is AwaitingStoredUser,
        ensures
            final(self).wf(),
            final(self).kind() == old(self).kind(),
            result matches Err(m) ==> (final(self).stage() is Finished && (r matches AuthAction::Fail(e)
                && e.error is Internal && e.reason == m)),
            result matches Ok(Some(u)) ==> (u.newapi_api_key is Some ==> (final(self).stage() is AwaitingUserWrite
                && r == AuthAction::WriteUser(old(self).identity().unwrap(), u.newapi_api_key))),
            result matches Ok(row) ==> ((row is None || row.unwrap().newapi_api_key is None) ==>
                (final(self).stage() is AwaitingProvisionedKey && r is ProvisionKey
                    && final(self).identity() == old(self).identity())),
    {
        match result {
            Err(reason) => {
                self.stage = AuthStage::Finished;
                self.identity = None;
                AuthAction::Fail(ApiError { error: ErrorKind::Internal, reason })
            },
            Ok(row) => {
                let stored = match row {
                    Some(u) => u.newapi_api_key,
                    None => None,
                };
                match stored {
                    Some(key) => {
                        let identity = self.identity.take();
                        self.stage = AuthStage::AwaitingUserWrite;
                        match identity {
                            Some(id) => AuthAction::WriteUser(id, Some(key)),
                            None => {
                                assert(false);
                                AuthAction::ProvisionKey
                            },
                        }
                    },
                    None => {
                        self.stage = AuthStage::AwaitingProvisionedKey;
                        AuthAction::ProvisionKey
                    },
                }
            },
        }
    }

    /// The key was provisioned: the row is written with it; a failure is
    /// answered as a failed login or a malformed registration.
    pub fn on_provisioned_key(&mut self, result: Result<String, String>) -> (r: AuthAction)
        requires
            old(self).wf(),
            old(self).stage() is AwaitingProvisionedKey,
        ensures
            final(self).wf(),
            final(self).kind() == old(self).kind(),
            result matches Err(m) ==> (final(self).stage() is Finished && (r matches AuthAction::Fail(e)
                && e.error == upstream_error_kind(old(self).kind()) && e.reason == m)),
            result matches Ok(k) ==> (final(self).stage() is AwaitingUserWrite
                && r == AuthAction::WriteUser(old(self).identity().unwrap(), Some(k))),
    {
        let identity = self.identity.take();
        match result {
            Err(reason) => {
                self.stage = AuthStage::Finished;
                AuthAction::Fail(upstream_failure(&self.kind, reason))
            },
            Ok(key) => {
                self.stage = AuthStage::AwaitingUserWrite;
                match identity {
                    Some(id) => AuthAction::WriteUser(id, Some(key)),
                    None => {
                        assert(false);
                        AuthAction::ProvisionKey
                    },
                }
            },
        }
    }

    /// The row was written: the token is minted for it; a database failure
    /// is internal.
    pub fn on_user_written(&mut self, result: Result<i32, String>) -> (r: AuthAction)
        requires
            old(self).wf(),
            old(self).stage() is AwaitingUserWrite,
        ensures
            final(self).wf(),
            final(self).stage() is Finished,
            result matches Err(m) ==> (r matches AuthAction::Fail(e) && e.error is Internal && e.reason == m),
            result matches Ok(id) ==> r == AuthAction::MintToken(id),
    {
        self.stage = AuthStage::Finished;
        match result {
            Err(reason) => AuthAction::Fail(ApiError { error: ErrorKind::Internal, reason }),
            Ok(id) => AuthAction::MintToken(id),
        }
    }
}

} // verus!
