use offchain::config::{EmailConfig, HttpServerConfig, DEFAULT_SERVER_PORT};
use offchain::crypto::{random_secret_key, secret_to_jwk};
use offchain::delegation::DelegationError;
use offchain::http::{ApiError, CreateTransactionHttpRequestBody, ParseCreateTransactionHttpRequestError};
use offchain::ledger::{Customer, LedgerRecord, RemoteError};
use offchain::service::{
    commit_after_notify, commit_after_reserve, payment_amount, payment_link_after_availability,
    payment_link_after_issue, CommitAction, IcAgentTransactionRepository, PaymentLinkStep,
};
use offchain::text::{decimal_string, parse_decimal, trim};
use offchain::transaction::{AgeError, CreateTransactionError, EmailAddressError, PANError};

fn record(booking_id: u64, car_id: u64, total: u64) -> LedgerRecord {
    LedgerRecord {
        booking_id,
        car_id,
        customer: Some(Customer {
            name: " Test User ".to_string(),
            email: "test@example.com".to_string(),
            age: 25,
            country_code: "91".to_string(),
            mobile_number: "9876543210".to_string(),
            pan: "ABCDE1234F".to_string(),
            aadhar: "123456789012".to_string(),
        }),
        start_timestamp: 1734556800,
        end_timestamp: 1734564000,
        total_amount: total,
    }
}

#[test]
fn payable_amount_adds_the_gateway_fee() {
    assert_eq!(payment_amount(100000), Some(102360));
    assert_eq!(payment_amount(0), Some(0));
    assert_eq!(payment_amount(1), Some(1));
    assert_eq!(payment_amount(9999), Some(10234));
    assert_eq!(payment_amount(u64::MAX), None);
}

#[test]
fn available_car_leads_to_a_payment_request() {
    match payment_link_after_availability(Ok(record(77, 101, 100000))) {
        PaymentLinkStep::RequestPaymentLink { amount, booking_id } => {
            assert_eq!(amount, 102360);
            assert_eq!(booking_id, 77);
        }
        other => panic!("unexpected {other:?}"),
    }
    let url = payment_link_after_issue(Ok("https://rzp.io/l/abc".to_string())).unwrap();
    assert_eq!(url, "https://rzp.io/l/abc");
    let failed = payment_link_after_issue(Err("gateway down".to_string()));
    match &failed {
        Err(CreateTransactionError::Unknown(m)) => {
            assert_eq!(m, "Failed to generate the payment link: gateway down")
        }
        other => panic!("unexpected {other:?}"),
    }
    let e = ApiError::from_create_error(failed.unwrap_err());
    assert_eq!(e, ApiError::InternalServerError("Failed to generate the payment link: gateway down".to_string()));
    assert_eq!(e.status_code(), 500);
}

#[test]
fn unavailable_car_never_reaches_the_payment_port() {
    match payment_link_after_availability(Err(RemoteError::Rejected("Car not available".to_string()))) {
        PaymentLinkStep::Done(Err(CreateTransactionError::CanisterRejectedError(m))) => {
            assert_eq!(m, "Car not available")
        }
        other => panic!("unexpected {other:?}"),
    }
    match payment_link_after_availability(Err(RemoteError::Transport("timeout".to_string()))) {
        PaymentLinkStep::Done(Err(CreateTransactionError::CanisterCommunicationError(m))) => {
            assert_eq!(m, "timeout")
        }
        other => panic!("unexpected {other:?}"),
    }
    let conflict = ApiError::from_create_error(CreateTransactionError::CanisterRejectedError("Car not available".to_string()));
    assert_eq!(conflict, ApiError::Conflict("Car not available".to_string()));
    assert_eq!(conflict.status_code(), 409);
}

#[test]
fn reservation_commits_notifies_once_and_survives_a_failed_notification() {
    let step = commit_after_reserve(Ok(record(9, 101, 5000)));
    assert_eq!(step.actions, vec![CommitAction::RecordSuccess, CommitAction::Notify]);
    let tx = step.result.as_ref().unwrap().clone();
    assert_eq!(tx.booking_id(), 9);
    assert_eq!(tx.car_id(), 101);
    assert_eq!(tx.name().as_str(), "Test User");
    assert_eq!(tx.mobile_number().value(), 9876543210);
    assert_eq!(tx.country_code(), 91);
    let answer = commit_after_notify(step, Err("mail server down".to_string())).unwrap();
    assert_eq!(answer, tx);
}

#[test]
fn failed_reservation_records_a_failure() {
    let step = commit_after_reserve(Err(RemoteError::Rejected("already booked".to_string())));
    assert_eq!(step.actions, vec![CommitAction::RecordFailure]);
    assert!(matches!(step.result, Err(CreateTransactionError::CanisterRejectedError(ref m)) if m == "already booked"));
    let step = commit_after_reserve(Err(RemoteError::Transport("reset".to_string())));
    assert_eq!(step.actions, vec![CommitAction::RecordFailure]);
    assert!(matches!(step.result, Err(CreateTransactionError::CanisterCommunicationError(_))));
}

#[test]
fn api_errors() {
    let e = ApiError::from_create_error(CreateTransactionError::InvalidAge(AgeError { invalid_age: 16 }));
    assert_eq!(e, ApiError::UnprocessableEntity("Invalid age: 16 is not a valid age for a driver".to_string()));
    assert_eq!(e.status_code(), 422);
    let e = ApiError::from_create_error(CreateTransactionError::CanisterCommunicationError("x".to_string()));
    assert_eq!(e, ApiError::InternalServerError("Failed to communicate with the canister: x".to_string()));
    assert_eq!(e.status_code(), 500);
    assert_eq!(e.client_message(), "Internal Server Error");
    let e = ApiError::from_create_error(CreateTransactionError::Unknown("boom".to_string()));
    assert_eq!(e, ApiError::InternalServerError("boom".to_string()));
    assert_eq!(e.status_code(), 500);
    let e = ApiError::from_create_error(CreateTransactionError::InvalidDelegation(DelegationError::Expired { index: 2 }));
    assert_eq!(e.client_message(), "Invalid delegation: link 2 of the delegation chain has expired");
    let e = ApiError::from_create_error(CreateTransactionError::InvalidPAN(PANError { invalid_pan: "X".to_string() }));
    assert_eq!(e.client_message(), "Invalid PAN: X is not a valid PAN");
    let e = ApiError::from_create_error(CreateTransactionError::TransactionExists { transaction_id: "7".to_string() });
    assert_eq!(e, ApiError::Conflict("Transaction with ID 7 already exists".to_string()));
    assert_eq!(e.status_code(), 409);
    let e = ApiError::from_parse_error(ParseCreateTransactionHttpRequestError::EmailAddress(EmailAddressError { invalid_email: "nope".to_string() }));
    assert_eq!(e, ApiError::UnprocessableEntity("Invalid email address: nope".to_string()));
}

#[test]
fn caller_handle_needs_a_valid_session_key() {
    let body = CreateTransactionHttpRequestBody {
        name: "Test User".to_string(),
        email_address: "test@example.com".to_string(),
        pan: "ABCDE1234F".to_string(),
        age: 25,
        car_id: 101,
        aadhar: 123456789012,
        country_code: 91,
        mobile_number: "9876543210".to_string(),
        principal_jwk: "not a key".to_string(),
        start_time: 200,
        end_time: 300,
    };
    let req = body.clone().try_into_domain_at(100).unwrap();
    assert!(matches!(
        IcAgentTransactionRepository::check_if_car_available(&req, 100),
        Err(CreateTransactionError::InvalidDelegation(DelegationError::MalformedKey))
    ));
    let mut good = body;
    good.principal_jwk = secret_to_jwk(&random_secret_key()).unwrap();
    let req = good.try_into_domain_at(100).unwrap();
    let now = offchain::clock::unix_time_nanos();
    let (handle, call) = IcAgentTransactionRepository::check_if_car_available(&req, now).unwrap();
    assert!(handle.expiry_ns() > now);
    assert_eq!((call.car_id(), call.start(), call.end()), (101, 200, 300));
    assert_eq!(call.customer().aadhar, "123456789012");
}

#[test]
fn admin_key_is_read_from_pem() {
    let repo = IcAgentTransactionRepository::new("not a pem".to_string());
    assert!(matches!(repo.get_admin_principal(), Err(CreateTransactionError::Unknown(_))));
    assert!(repo.admin_canisters().is_err());
}

#[test]
fn text_helpers() {
    assert_eq!(trim("\u{2003} a b \n"), "a b");
    assert_eq!(trim(""), "");
    assert_eq!(parse_decimal("+42", 100), Some(42));
    assert_eq!(parse_decimal("101", 100), None);
    assert_eq!(parse_decimal("18446744073709551615", u64::MAX), Some(u64::MAX));
    assert_eq!(parse_decimal("18446744073709551616", u64::MAX), None);
    assert_eq!(parse_decimal("", 10), None);
    assert_eq!(parse_decimal("+", 10), None);
    assert_eq!(parse_decimal("-1", 10), None);
    assert_eq!(parse_decimal("007", 10), Some(7));
    assert_eq!(decimal_string(0), "0");
    assert_eq!(decimal_string(u64::MAX), u64::MAX.to_string());
}

#[test]
fn email_token_expiry_and_refresh() {
    let mut c = EmailConfig {
        client_id: "id".to_string(),
        client_secret: "secret".to_string(),
        access_token: "old".to_string(),
        refresh_token: "refresh".to_string(),
        token_expiry: 100,
    };
    assert!(!c.is_token_expired_at(99));
    assert!(c.is_token_expired_at(100));
    c.refresh("new".to_string(), 3600, 200);
    assert_eq!(c.access_token, "new");
    assert_eq!(c.token_expiry, 3800);
    assert_eq!(c.refresh_token, "refresh");
    c.refresh("newer".to_string(), u64::MAX, 1);
    assert_eq!(c.token_expiry, u64::MAX);
}

#[test]
fn server_port() {
    assert_eq!(HttpServerConfig { port: "8080" }.port_number(), 8080);
    assert_eq!(HttpServerConfig { port: "70000" }.port_number(), DEFAULT_SERVER_PORT);
    assert_eq!(HttpServerConfig { port: "" }.port_number(), 50051);
}

#[test]
fn record_faults_name_the_failing_field() {
    let mut r = record(1, 2, 0);
    r.customer.as_mut().unwrap().age = 17;
    assert!(matches!(commit_after_reserve(Ok(r)).result, Err(CreateTransactionError::InvalidAge(_))));
    let mut r = record(1, 2, 0);
    r.customer.as_mut().unwrap().mobile_number = "12345".to_string();
    assert!(matches!(commit_after_reserve(Ok(r)).result, Err(CreateTransactionError::InvalidMobile(_))));
    let mut r = record(1, 2, 0);
    r.customer.as_mut().unwrap().pan = "abc".to_string();
    assert!(matches!(commit_after_reserve(Ok(r)).result, Err(CreateTransactionError::InvalidPAN(_))));
    let mut r = record(1, 2, 0);
    r.customer.as_mut().unwrap().aadhar = "1234".to_string();
    assert!(matches!(commit_after_reserve(Ok(r)).result, Err(CreateTransactionError::InvalidAadhar(_))));
}

#[test]
fn admin_commit_call_acts_as_the_admin_key() {
    let secret = k256::SecretKey::from_slice(&random_secret_key()).unwrap();
    let pem = secret.to_sec1_pem(k256::pkcs8::LineEnding::LF).unwrap().to_string();
    let repo = IcAgentTransactionRepository::new(pem);
    let proof = offchain::ledger::PaymentProof {
        payment_id: "pay".to_string(),
        payment_link_id: "link".to_string(),
        reference_id: "3".to_string(),
        status: "paid".to_string(),
        signature: "sig".to_string(),
    };
    let (handle, call) = repo.create_transaction(3, proof.clone()).unwrap();
    assert_eq!(call.booking_id(), 3);
    assert_eq!(call.payment(), &proof);
    assert_eq!(handle.principal(), repo.get_admin_principal().unwrap());
}

#[test]
fn twelve_digit_aadhar_numbers_pass() {
    let body = |aadhar: u64| CreateTransactionHttpRequestBody {
        name: "A".to_string(),
        email_address: "a@b.c".to_string(),
        pan: "ABCDE1234F".to_string(),
        age: 30,
        car_id: 1,
        aadhar,
        country_code: 91,
        mobile_number: "9876543210".to_string(),
        principal_jwk: String::new(),
        start_time: 10,
        end_time: 20,
    };
    assert!(body(100_000_000_000).try_into_domain_at(0).is_ok());
    assert!(body(999_999_999_999).try_into_domain_at(0).is_ok());
    assert!(body(99_999_999_999).try_into_domain_at(0).is_err());
    assert!(body(1_000_000_000_000).try_into_domain_at(0).is_err());
    let r = body(123_456_789_012).try_into_domain().unwrap_err();
    assert!(matches!(r, ParseCreateTransactionHttpRequestError::StartTime(_)));
}
