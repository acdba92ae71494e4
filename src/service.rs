//! The transaction workflow.
//!
//! Quote (flow A): the request is validated, the caller's delegated handle asks the
//! ledger whether the car is free, and a payment link is requested for the quoted total
//! plus the gateway's 2.36 % fee. Commit (flow B): after payment, the service's own
//! handle reserves the booking; the ledger's record is re-validated into a
//! `Transaction`, a metric is recorded and the notifier is told.
//!
//! Each step is a function from what the previous step produced and what the outside
//! world answered to the next thing to do; the caller performs it and hands back the answer.
use vstd::prelude::*;
use vstd::string::StringExecFns;

use crate::canister::{AdminSession, Canisters, UserSession};
use crate::crypto::{
    jwk_secret, random_secret_key, sec1_pem_secret, secp256k1_public_key_der, secret_from_sec1_pem,
    self_authenticating_principal,
};
use crate::delegation::{
    chain_valid, lemma_root_delegation_valid, session_key_bound, DelegatedIdentity,
    DelegatedIdentityWire, DelegationError, DELEGATION_MAX_AGE_NS,
};
use crate::ledger::{
    AvailabilityCall, LedgerRecord, PaymentProof, RemoteError, ReserveCall,
    ReserveModel,
};
use crate::text::{decimal_of, parse_decimal, parsed_decimal};
use crate::transaction::{
    aadhar_of, email_of, is_adult_age, is_mobile_number, pan_of, user_name_of, Aadhar, Age,
    CreateTransactionError, CreateTransactionRequest, EmailAddress, MobileNumber, Transaction,
    TransactionModel, UserName, PAN,
};

verus! {

// ---------------------------------------------------------------- amounts

/// The amount to charge for a quoted total (both in minor currency units): the total
/// plus 2.36 %, rounded down.
pub open spec fn payable_amount(total: u64) -> int {
    total * 10236 / 10000
}

/// The amount to charge for `total`, or `None` where it does not fit in a `u64`.
pub fn payment_amount(total: u64) -> (r: Option<u64>)
    ensures
        r matches Some(a) ==> a == payable_amount(total),
        r is None <==> payable_amount(total) > u64::MAX,
{
    let q = total / 10000;
    let rem = total % 10000;
    let low = rem * 10236 / 10000;
    proof {
        assert(total == q * 10000 + rem) by (nonlinear_arith)
            requires q == total / 10000, rem == total % 10000;
        assert(total * 10236 / 10000 == q * 10236 + rem * 10236 / 10000) by (nonlinear_arith)
            requires total == q * 10000 + rem, 0 <= rem < 10000;
    }
    match q.checked_mul(10236) {
        Some(high) => high.checked_add(low),
        None => {
            proof {
                assert(q * 10236 + rem * 10236 / 10000 >= q * 10236) by (nonlinear_arith)
                    requires 0 <= rem;
            }
            None
        },
    }
}

// ---------------------------------------------------------------- quote

/// The next thing to do while issuing a payment link.
#[derive(Debug)]
pub enum PaymentLinkStep {
    /// Ask the payment port for a link for `amount` (minor units) with reference `booking_id`.
    RequestPaymentLink { amount: u64, booking_id: u64 },
    /// Answer the caller.
    Done(Result<String, CreateTransactionError>),
}

/// Decides what follows the availability check. Only an available car leads to the
/// payment port; a refusal becomes a conflict and a transport failure a
/// communication error, both handed to the caller as they came.
pub fn payment_link_after_availability(checked: Result<LedgerRecord, RemoteError>) -> (r:
    PaymentLinkStep)
    ensures
        checked matches Ok(rec) ==> (payable_amount(rec.total_amount) <= u64::MAX ==> r == (
        PaymentLinkStep::RequestPaymentLink {
            amount: payable_amount(rec.total_amount) as u64,
            booking_id: rec.booking_id,
        })) && (payable_amount(rec.total_amount) > u64::MAX ==> r matches PaymentLinkStep::Done(
            Err(CreateTransactionError::Unknown(_)),
        )),
        checked matches Err(RemoteError::Rejected(m)) ==> r == PaymentLinkStep::Done(
            Err(CreateTransactionError::CanisterRejectedError(m)),
        ),
        checked matches Err(RemoteError::Transport(m)) ==> r == PaymentLinkStep::Done(
            Err(CreateTransactionError::CanisterCommunicationError(m)),
        ),
{
    match checked {
        Ok(rec) => match payment_amount(rec.total_amount) {
            Some(amount) => PaymentLinkStep::RequestPaymentLink { amount, booking_id: rec.booking_id },
            None => PaymentLinkStep::Done(
                Err(CreateTransactionError::Unknown(String::from_str("Quoted total is out of range"))),
            ),
        },
        Err(RemoteError::Rejected(m)) => PaymentLinkStep::Done(
            Err(CreateTransactionError::CanisterRejectedError(m)),
        ),
        Err(RemoteError::Transport(m)) => PaymentLinkStep::Done(
            Err(CreateTransactionError::CanisterCommunicationError(m)),
        ),
    }
}

/// Decides the caller's answer from the payment port's: the link, or an error that
/// carries the port's message.
pub fn payment_link_after_issue(issued: Result<String, String>) -> (r: Result<
    String,
    CreateTransactionError,
>)
    ensures
        issued matches Ok(url) ==> r == Ok::<String, CreateTransactionError>(url),
        issued matches Err(e) ==> (r matches Err(CreateTransactionError::Unknown(m)) && m@
            == "Failed to generate the payment link: "@ + e@),
{
    match issued {
        Ok(url) => Ok(url),
        Err(e) => {
            let m = String::from_str("Failed to generate the payment link: ").concat(e.as_str());
            Err(CreateTransactionError::Unknown(m))
        },
    }
}

// ---------------------------------------------------------------- commit

/// The booking that a ledger record describes, where every customer field passes the
/// same checks as a request's: `None` where the record has no customer or a field fails.
pub open spec fn record_transaction(rec: LedgerRecord) -> Option<TransactionModel> {
    match rec.customer {
        None => None,
        Some(c) => {
            if user_name_of(c.name@) is Some && email_of(c.email@) is Some && is_adult_age(c.age)
                && parsed_decimal(c.country_code@, 65535) is Some && parsed_decimal(
                c.mobile_number@,
                u64::MAX as int,
            ) is Some && is_mobile_number(
                parsed_decimal(c.mobile_number@, u64::MAX as int)->Some_0 as u64,
            ) && pan_of(c.pan@) is Some && aadhar_of(c.aadhar@) is Some {
                Some(
                    TransactionModel {
                        booking_id: rec.booking_id,
                        car_id: rec.car_id,
                        name: user_name_of(c.name@)->Some_0,
                        email: email_of(c.email@)->Some_0,
                        age: c.age,
                        country_code: parsed_decimal(c.country_code@, 65535)->Some_0 as u16,
                        mobile_number: parsed_decimal(c.mobile_number@, u64::MAX as int)->Some_0 as u64,
                        pan: pan_of(c.pan@)->Some_0,
                        aadhar: aadhar_of(c.aadhar@)->Some_0,
                        start_time: rec.start_timestamp,
                        end_time: rec.end_timestamp,
                    },
                )
            } else {
                None
            }
        },
    }
}

/// The first check a ledger record fails, in the order the fields are read: 1 no
/// customer, 2 name, 3 email, 4 age, 5 country code, 6 mobile number text, 7 mobile
/// number value, 8 PAN, 9 Aadhar; 0 when it fails none.
pub open spec fn record_fault(rec: LedgerRecord) -> int {
    match rec.customer {
        None => 1,
        Some(c) => if user_name_of(c.name@) is None {
            2
        } else if email_of(c.email@) is None {
            3
        } else if !is_adult_age(c.age) {
            4
        } else if parsed_decimal(c.country_code@, 65535) is None {
            5
        } else if parsed_decimal(c.mobile_number@, u64::MAX as int) is None {
            6
        } else if !is_mobile_number(parsed_decimal(c.mobile_number@, u64::MAX as int)->Some_0 as u64) {
            7
        } else if pan_of(c.pan@) is None {
            8
        } else if aadhar_of(c.aadhar@) is None {
            9
        } else {
            0
        },
    }
}

/// Whether `e` is the error that reports record fault `fault`: text that reads as no
/// number, or a missing customer, is an unclassified failure; a field that fails its
/// value object's check gives that check's error.
pub open spec fn reports_record_fault(e: CreateTransactionError, fault: int) -> bool {
    match e {
        CreateTransactionError::Unknown(_) => fault == 1 || fault == 5 || fault == 6,
        CreateTransactionError::UserNameEmpty(_) => fault == 2,
        CreateTransactionError::InvalidEmail(_) => fault == 3,
        CreateTransactionError::InvalidAge(_) => fault == 4,
        CreateTransactionError::InvalidMobile(_) => fault == 7,
        CreateTransactionError::InvalidPAN(_) => fault == 8,
        CreateTransactionError::InvalidAadhar(_) => fault == 9,
        _ => false,
    }
}

/// Rebuilds the committed booking from the ledger's record, checking every customer
/// field again through the value objects, in the order name, email, age, country code,
/// mobile number, PAN, Aadhar.
pub fn transaction_from_record(rec: &LedgerRecord) -> (r: Result<Transaction, CreateTransactionError>)
    ensures
        r matches Ok(tx) ==> record_transaction(*rec) == Some(tx@),
        r is Err <==> record_transaction(*rec) is None,
        r is Err <==> record_fault(*rec) != 0,
        r matches Err(e) ==> reports_record_fault(e, record_fault(*rec)),
{
    let c = match &rec.customer {
        Some(c) => c,
        None => {
            return Err(CreateTransactionError::Unknown(String::from_str("Failed to parse Customer")));
        },
    };
    let name = match UserName::new(c.name.as_str()) {
        Ok(n) => n,
        Err(e) => return Err(CreateTransactionError::UserNameEmpty(e)),
    };
    let email = match EmailAddress::new(c.email.as_str()) {
        Ok(v) => v,
        Err(e) => return Err(CreateTransactionError::InvalidEmail(e)),
    };
    let age = match Age::new(c.age) {
        Ok(v) => v,
        Err(e) => return Err(CreateTransactionError::InvalidAge(e)),
    };
    let country_code = match parse_decimal(c.country_code.as_str(), 65535) {
        Some(v) => v as u16,
        None => {
            return Err(
                CreateTransactionError::Unknown(String::from_str("Could not parse country code")),
            );
        },
    };
    let mobile = match parse_decimal(c.mobile_number.as_str(), u64::MAX) {
        Some(v) => v,
        None => {
            return Err(
                CreateTransactionError::Unknown(String::from_str("Could not parse mobile number")),
            );
        },
    };
    let mobile_number = match MobileNumber::new(mobile) {
        Ok(v) => v,
        Err(e) => return Err(CreateTransactionError::InvalidMobile(e)),
    };
    let pan = match PAN::new(c.pan.as_str()) {
        Ok(v) => v,
        Err(e) => return Err(CreateTransactionError::InvalidPAN(e)),
    };
    let aadhar = match Aadhar::new(c.aadhar.as_str()) {
        Ok(v) => v,
        Err(e) => return Err(CreateTransactionError::InvalidAadhar(e)),
    };
    Ok(
        Transaction::new(
            rec.booking_id,
            rec.car_id,
            name,
            email,
            age,
            country_code,
            mobile_number,
            pan,
            aadhar,
            rec.start_timestamp,
            rec.end_timestamp,
        ),
    )
}

/// Something the commit asks of the metrics and notifier ports, in order.
#[derive(Clone, Copy, Debug, PartialEq, Eq)]
pub enum CommitAction {
    RecordSuccess,
    RecordFailure,
    /// Tell the notifier about the committed transaction of the step.
    Notify,
}

/// The outcome of a reservation and what to do about it.
#[derive(Debug)]
pub struct CommitStep {
    pub result: Result<Transaction, CreateTransactionError>,
    pub actions: Vec<CommitAction>,
}

/// Decides what follows a reservation. A confirmed reservation whose record passes the
/// checks is a success: the success metric is recorded and the notifier is told once.
/// Anything else records a failure and is returned as it came; nothing is rolled back,
/// since nothing was changed here.
pub fn commit_after_reserve(reserved: Result<LedgerRecord, RemoteError>) -> (r: CommitStep)
    ensures
        reserved matches Ok(rec) ==> (record_transaction(rec) is Some ==> (r.result matches Ok(tx)
            && Some(tx@) == record_transaction(rec) && r.actions@ == seq![
            CommitAction::RecordSuccess,
            CommitAction::Notify,
        ])),
        reserved matches Ok(rec) ==> (record_transaction(rec) is None ==> (r.result matches Err(e)
            && reports_record_fault(e, record_fault(rec)) && r.actions@ == seq![
            CommitAction::RecordFailure,
        ])),
        reserved matches Err(RemoteError::Rejected(m)) ==> r.result == Err::<
            Transaction,
            CreateTransactionError,
        >(CreateTransactionError::CanisterRejectedError(m)) && r.actions@ == seq![
            CommitAction::RecordFailure,
        ],
        reserved matches Err(RemoteError::Transport(m)) ==> r.result == Err::<
            Transaction,
            CreateTransactionError,
        >(CreateTransactionError::CanisterCommunicationError(m)) && r.actions@ == seq![
            CommitAction::RecordFailure,
        ],
{
    let result = match reserved {
        Ok(rec) => transaction_from_record(&rec),
        Err(RemoteError::Rejected(m)) => Err(CreateTransactionError::CanisterRejectedError(m)),
        Err(RemoteError::Transport(m)) => Err(CreateTransactionError::CanisterCommunicationError(m)),
    };
    let actions = match &result {
        Ok(_) => vec![CommitAction::RecordSuccess, CommitAction::Notify],
        Err(_) => vec![CommitAction::RecordFailure],
    };
    assert(actions@ =~= seq![CommitAction::RecordSuccess, CommitAction::Notify] || actions@
        =~= seq![CommitAction::RecordFailure]);
    CommitStep { result, actions }
}

/// The commit's answer once the notifier has been told: the reservation stands whatever
/// the notifier reported.
pub fn commit_after_notify(step: CommitStep, notified: Result<(), String>) -> (r: Result<
    Transaction,
    CreateTransactionError,
>)
    ensures
        r == step.result,
{
    step.result
}

/// A booking rebuilt from a ledger record keeps the record's booking, car and window.
pub proof fn lemma_commit_keeps_ledger_ids(rec: LedgerRecord)
    requires
        record_transaction(rec) is Some,
    ensures
        record_transaction(rec)->Some_0.booking_id == rec.booking_id,
        record_transaction(rec)->Some_0.car_id == rec.car_id,
        record_transaction(rec)->Some_0.start_time == rec.start_timestamp,
        record_transaction(rec)->Some_0.end_time == rec.end_timestamp,
{
}

// ---------------------------------------------------------------- repository

/// Access to the ledger: the caller's delegated handle for availability checks, and the
/// service's administrative key (a PEM `EC PRIVATE KEY`) for commits.
#[derive(Debug, Clone)]
pub struct IcAgentTransactionRepository {
    admin_private_key: String,
}

/// The service's administrative identity: the root identity of its PEM key.
pub open spec fn admin_identity_key(pem: Seq<char>) -> Option<Seq<u8>> {
    match sec1_pem_secret(pem) {
        None => None,
        Some(secret) => secp256k1_public_key_der(secret),
    }
}

impl IcAgentTransactionRepository {
    pub closed spec fn admin_key_spec(&self) -> Seq<char> {
        self.admin_private_key@
    }

    pub fn new(admin_private_key: String) -> (r: Self)
        ensures
            r.admin_key_spec() == admin_private_key@,
    {
        IcAgentTransactionRepository { admin_private_key }
    }

    fn create_identity_for_admin(&self) -> (r: Option<DelegatedIdentity>)
        ensures
            r is None <==> admin_identity_key(self.admin_key_spec()) is None,
            r matches Some(id) ==> admin_identity_key(self.admin_key_spec()) == Some(id@.from_key)
                && id@.chain.len() == 0,
    {
        match secret_from_sec1_pem(self.admin_private_key.as_str()) {
            Some(secret) => DelegatedIdentity::from_secret(secret),
            None => None,
        }
    }

    /// The principal the service acts as; an error where its key cannot be read.
    pub fn get_admin_principal(&self) -> (r: Result<String, CreateTransactionError>)
        ensures
            r matches Ok(p) ==> (admin_identity_key(self.admin_key_spec()) matches Some(k) && p@
                == self_authenticating_principal(k)),
            r is Err <==> admin_identity_key(self.admin_key_spec()) is None,
            r is Err ==> r matches Err(CreateTransactionError::Unknown(_)),
    {
        match self.create_identity_for_admin() {
            Some(id) => Ok(id.sender()),
            None => Err(CreateTransactionError::Unknown(String::from_str("Failed to get principal"))),
        }
    }

    /// The service's own handle; an error where its key cannot be read.
    pub fn admin_canisters(&self) -> (r: Result<Canisters<AdminSession>, CreateTransactionError>)
        ensures
            r is Err <==> admin_identity_key(self.admin_key_spec()) is None,
            r matches Ok(c) ==> admin_identity_key(self.admin_key_spec()) == Some(
                c.identity_spec().from_key,
            ),
            r is Err ==> r matches Err(CreateTransactionError::Unknown(_)),
    {
        match self.create_identity_for_admin() {
            Some(id) => Ok(Canisters::<AdminSession>::set_arc_id(id)),
            None => Err(
                CreateTransactionError::Unknown(String::from_str("Failed to read the admin key")),
            ),
        }
    }

    /// The caller's handle: a fresh standard session delegated at `now` from the caller's
    /// key to a fresh session key, verified at `now` before use.
    pub fn user_canisters(req: &CreateTransactionRequest, now: u64) -> (r: Result<
        Canisters<UserSession>,
        CreateTransactionError,
    >)
        ensures
            jwk_secret(req@.principal_jwk) is None ==> r matches Err(
                CreateTransactionError::InvalidDelegation(DelegationError::MalformedKey),
            ),
            r matches Ok(c) ==> (jwk_secret(req@.principal_jwk) matches Some(k)
                && secp256k1_public_key_der(k) == Some(c.identity_spec().from_key) && chain_valid(
                c.identity_spec().from_key,
                c.identity_spec().chain,
                now,
            )),
            r is Err ==> r matches Err(CreateTransactionError::InvalidDelegation(_)),
            (jwk_secret(req@.principal_jwk) matches Some(k) && secp256k1_public_key_der(k) is Some
                && now < u64::MAX) ==> (r is Ok || r matches Err(
                CreateTransactionError::InvalidDelegation(DelegationError::MalformedKey),
            )),
    {
        let secret = match req.secret() {
            Some(k) => k,
            None => {
                return Err(CreateTransactionError::InvalidDelegation(DelegationError::MalformedKey));
            },
        };
        let root = match DelegatedIdentity::from_secret(secret) {
            Some(id) => id,
            None => {
                return Err(CreateTransactionError::InvalidDelegation(DelegationError::MalformedKey));
            },
        };
        let session_key = random_secret_key();
        let wire = match DelegatedIdentityWire::delegate_at(
            &root,
            &session_key,
            now,
            DELEGATION_MAX_AGE_NS,
        ) {
            Ok(w) => w,
            Err(e) => return Err(CreateTransactionError::InvalidDelegation(e)),
        };
        let id = match DelegatedIdentity::try_from(wire) {
            Ok(id) => id,
            Err(e) => return Err(CreateTransactionError::InvalidDelegation(e)),
        };
        proof {
            if now < u64::MAX {
                lemma_root_delegation_valid(root@, session_key@, now, DELEGATION_MAX_AGE_NS, now);
                assert(chain_valid(id@.from_key, id@.chain, now));
                assert(session_key_bound(id@));
            }
        }
        match Canisters::<UserSession>::authenticated(id, now) {
            Ok(c) => Ok(c),
            Err(e) => Err(CreateTransactionError::InvalidDelegation(e)),
        }
    }

    /// Flow A's first call: the availability check for the request's car and window,
    /// with the caller's handle. No call is made where the caller's delegation fails.
    pub fn check_if_car_available(req: &CreateTransactionRequest, now: u64) -> (r: Result<
        (Canisters<UserSession>, AvailabilityCall),
        CreateTransactionError,
    >)
        ensures
            r matches Ok((c, call)) ==> (call@.car_id == req@.car_id && call@.start
                == req@.start_time && call@.end == req@.end_time && crate::transaction::customer_of(
                req@,
                call@.customer,
            )),
            r matches Ok((c, call)) ==> (jwk_secret(req@.principal_jwk) matches Some(k)
                && secp256k1_public_key_der(k) == Some(c.identity_spec().from_key) && chain_valid(
                c.identity_spec().from_key,
                c.identity_spec().chain,
                now,
            )),
            r is Err ==> r matches Err(CreateTransactionError::InvalidDelegation(_)),
            jwk_secret(req@.principal_jwk) is None ==> r is Err,
            (jwk_secret(req@.principal_jwk) matches Some(k) && secp256k1_public_key_der(k) is Some
                && now < u64::MAX) ==> (r is Ok || r matches Err(
                CreateTransactionError::InvalidDelegation(DelegationError::MalformedKey),
            )),
    {
        let c = IcAgentTransactionRepository::user_canisters(req, now)?;
        let call = c.validate_availability(req.car_id(), req.start_time(), req.end_time(), req.customer());
        Ok((c, call))
    }

    /// Flow B's call: the commit of `booking_id` against `payment`, with the service's handle.
    pub fn create_transaction(&self, booking_id: u64, payment: PaymentProof) -> (r: Result<
        (Canisters<AdminSession>, ReserveCall),
        CreateTransactionError,
    >)
        ensures
            r matches Ok((c, call)) ==> call@ == (ReserveModel { booking_id, payment })
                && admin_identity_key(self.admin_key_spec()) == Some(c.identity_spec().from_key),
            r is Err <==> admin_identity_key(self.admin_key_spec()) is None,
            r is Err ==> r matches Err(CreateTransactionError::Unknown(_)),
    {
        let c = self.admin_canisters()?;
        let call = c.reserve(booking_id, payment);
        Ok((c, call))
    }
}

} // verus!
