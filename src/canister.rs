//! Handles to the remote ledger, tagged at the type level with the authority they carry.
//!
//! `Canisters<Unauthenticated>` carries no identity and offers no ledger operation.
//! `Canisters<UserSession>` acts with a caller's verified delegation and can only check
//! availability. `Canisters<AdminSession>` acts with the service's own key and is the
//! only handle that can commit a reservation; only `IcAgentTransactionRepository`, which
//! holds the service's key, makes one. No method turns one kind into another, and the
//! call values (`AvailabilityCall`, `ReserveCall`) can only be made by the handle that
//! may send them.
use vstd::prelude::*;

use crate::crypto::self_authenticating_principal;
use crate::delegation::{
    chain_valid, min_expiration, session_key_bound, wire_session_bound, DelegatedIdentity,
    DelegatedIdentityWire, DelegationError,
    IdentityModel,
};
use crate::ledger::{
    AvailabilityCall, AvailabilityModel, Customer, PaymentProof, ReserveCall, ReserveModel,
};

verus! {

/// Authority of a handle with no identity.
#[derive(Debug)]
pub struct Unauthenticated;

/// Authority of a caller, through a delegation chain that was verified.
#[derive(Debug)]
pub struct UserSession {
    identity: DelegatedIdentity,
}

/// The service's own administrative authority.
#[derive(Debug)]
pub struct AdminSession {
    identity: DelegatedIdentity,
}

/// A handle to the remote ledger acting with authority `A`.
#[derive(Debug)]
pub struct Canisters<A> {
    session: A,
    user_principal: String,
    expiry: u64,
}

/// The principal the anonymous caller is known by.
pub open spec fn anonymous_principal() -> Seq<char> {
    seq!['2', 'v', 'x', 's', 'x', '-', 'f', 'a', 'e']
}

impl Default for Canisters<Unauthenticated> {
    fn default() -> (r: Self)
        ensures
            r.principal_spec() == anonymous_principal(),
            r.expiry_spec() == 0,
    {
        proof {
            reveal_strlit("2vxsx-fae");
        }
        let p = String::from_str("2vxsx-fae");
        assert(p@ =~= anonymous_principal());
        Canisters { session: Unauthenticated, user_principal: p, expiry: 0 }
    }
}

impl<A> Canisters<A> {
    pub closed spec fn principal_spec(&self) -> Seq<char> {
        self.user_principal@
    }

    pub closed spec fn expiry_spec(&self) -> u64 {
        self.expiry
    }

    /// The principal that the handle's calls are made as.
    pub fn principal(&self) -> (r: &str)
        ensures
            r@ == self.principal_spec(),
    {
        self.user_principal.as_str()
    }

    /// Until when (nanoseconds since the Unix epoch) the handle's authority lasts.
    pub fn expiry_ns(&self) -> (r: u64)
        ensures
            r == self.expiry_spec(),
    {
        self.expiry
    }
}

impl Canisters<UserSession> {
    pub closed spec fn identity_spec(&self) -> IdentityModel {
        self.session.identity@
    }

    /// A handle acting with a caller's delegated identity. The chain is verified at
    /// `now` first: every signature, that no link has expired, and that the identity's
    /// key is the one the last link delegated to.
    pub fn authenticated(id: DelegatedIdentity, now: u64) -> (r: Result<Self, DelegationError>)
        ensures
            r is Ok <==> chain_valid(id@.from_key, id@.chain, now) && session_key_bound(id@),
            r == Err::<Self, DelegationError>(DelegationError::SessionKeyMismatch) <==> chain_valid(
                id@.from_key,
                id@.chain,
                now,
            ) && !session_key_bound(id@),
            r matches Ok(c) ==> c.identity_spec() == id@ && c.expiry_spec() == min_expiration(
                id@.chain,
            ) && c.principal_spec() == self_authenticating_principal(id@.from_key),
            r matches Err(e) ==> e != DelegationError::MalformedKey,
    {
        match id.verify_at(now) {
            Ok(()) => {
                if !id.holds_session_key() {
                    return Err(DelegationError::SessionKeyMismatch);
                }
                let expiry = crate::delegation::effective_expiry(id.delegation_chain());
                let user_principal = id.sender();
                Ok(Canisters { session: UserSession { identity: id }, user_principal, expiry })
            },
            Err(e) => {
                proof {
                    assert(e != DelegationError::MalformedKey);
                    assert(e != DelegationError::SessionKeyMismatch);
                }
                Err(e)
            },
        }
    }

    pub fn identity(&self) -> (r: &DelegatedIdentity)
        ensures
            r@ == self.identity_spec(),
    {
        &self.session.identity
    }

    /// The availability check for `car_id` over `[start, end]`, made with the caller's
    /// authority.
    pub fn validate_availability(&self, car_id: u64, start: u64, end: u64, customer: Customer) -> (r:
        AvailabilityCall)
        ensures
            r@ == (AvailabilityModel { car_id, start, end, customer }),
    {
        AvailabilityCall::new(car_id, start, end, customer)
    }
}

impl Canisters<AdminSession> {
    pub closed spec fn identity_spec(&self) -> IdentityModel {
        self.session.identity@
    }

    /// A handle acting with the service's own identity, for commits the service makes
    /// itself after a payment is confirmed; never for what a caller sends. Only the
    /// repository that holds the service's key makes one.
    pub(crate) fn set_arc_id(id: DelegatedIdentity) -> (r: Self)
        ensures
            r.identity_spec() == id@,
            r.expiry_spec() == min_expiration(id@.chain),
            r.principal_spec() == self_authenticating_principal(id@.from_key),
    {
        let expiry = crate::delegation::effective_expiry(id.delegation_chain());
        let user_principal = id.sender();
        Canisters { session: AdminSession { identity: id }, user_principal, expiry }
    }

    pub fn identity(&self) -> (r: &DelegatedIdentity)
        ensures
            r@ == self.identity_spec(),
    {
        &self.session.identity
    }

    /// The commit of booking `booking_id` against `payment`, made with the service's authority.
    pub fn reserve(&self, booking_id: u64, payment: PaymentProof) -> (r: ReserveCall)
        ensures
            r@ == (ReserveModel { booking_id, payment }),
    {
        ReserveCall::new(booking_id, payment)
    }
}

/// What a verified caller session hands back to the caller: the wire identity, the
/// principal it acts as, and until when.
#[derive(Debug)]
pub struct CanistersAuthWire {
    pub id: DelegatedIdentityWire,
    pub user_principal: String,
    pub expiry: u64,
}

impl CanistersAuthWire {
    /// The caller's handle: the identity is rebuilt and its chain verified at `now`.
    pub fn canisters(self, now: u64) -> (r: Result<Canisters<UserSession>, DelegationError>)
        ensures
            r matches Ok(c) ==> c.identity_spec().from_key == self.id@.from_key
                && c.identity_spec().chain == self.id@.chain && chain_valid(
                self.id@.from_key,
                self.id@.chain,
                now,
            ) && c.expiry_spec() == min_expiration(self.id@.chain),
            r is Ok <==> chain_valid(self.id@.from_key, self.id@.chain, now) && wire_session_bound(
                self.id@,
            ),
    {
        let id = DelegatedIdentity::try_from(self.id)?;
        Canisters::<UserSession>::authenticated(id, now)
    }
}

/// Verifies a caller's wire identity at `now` and describes the session it gives.
pub fn do_canister_auth(auth: DelegatedIdentityWire, now: u64) -> (r: Result<
    CanistersAuthWire,
    DelegationError,
>)
    ensures
        r matches Ok(w) ==> w.id@ == auth@ && chain_valid(auth@.from_key, auth@.chain, now)
            && w.expiry == min_expiration(auth@.chain) && w.user_principal@
            == self_authenticating_principal(auth@.from_key),
        r is Ok <==> chain_valid(auth@.from_key, auth@.chain, now) && wire_session_bound(auth@),
{
    let id = DelegatedIdentity::try_from(auth.clone())?;
    let canisters = Canisters::<UserSession>::authenticated(id, now)?;
    Ok(CanistersAuthWire { id: auth, user_principal: canisters.user_principal, expiry: canisters.expiry })
}

} // verus!
