use offchain::http::{CreateTransactionHttpRequestBody, CreateTransactionResponseData};
use offchain::ledger::{Customer, LedgerRecord};
use offchain::service::{commit_after_reserve, CommitAction};
use offchain::transaction::{
    is_valid_email, Aadhar, Age, CreateTransactionError, EmailAddress, EndTime, MobileNumber,
    StartTime, Transaction, UserName, PAN,
};

fn customer() -> Customer {
    Customer {
        name: "Test User".to_string(),
        email: "test@example.com".to_string(),
        age: 25,
        country_code: "91".to_string(),
        mobile_number: "9876543210".to_string(),
        pan: "ABCDE1234F".to_string(),
        aadhar: "123456789012".to_string(),
    }
}

#[test]
fn test_create_transaction_success() {
    let booking_id = 1;
    let car_id = 101;
    let transaction_id = 1;

    let body = CreateTransactionHttpRequestBody {
        name: "Test User".to_string(),
        email_address: "test@example.com".to_string(),
        pan: "ABCDE1234F".to_string(),
        age: 25,
        car_id,
        aadhar: 123456789012,
        country_code: 91,
        mobile_number: "9876543210".to_string(),
        principal_jwk: String::new(),
        start_time: 1734556800,
        end_time: 1734564000,
    };
    // The request is checked as of a moment before the booking window.
    let req = body.try_into_domain_at(1734550000);
    assert!(req.is_ok(), "expected the request to validate, but got {:?}", req);
    let req = req.unwrap();
    assert_eq!(req.car_id(), car_id);

    let record = LedgerRecord {
        booking_id,
        car_id,
        customer: Some(customer()),
        start_timestamp: 1734556800,
        end_timestamp: 1734564000,
        total_amount: 100000,
    };
    let step = commit_after_reserve(Ok(record));
    let actual = step.result.as_ref().map(CreateTransactionResponseData::from_transaction);
    assert!(actual.is_ok(), "expected create_transaction to succeed, but got {:?}", actual);
    let expected = CreateTransactionResponseData { id: transaction_id };
    assert_eq!(actual.unwrap(), expected, "expected {:?}", expected);
}

#[test]
fn user_name_is_trimmed_and_not_empty() {
    assert_eq!(UserName::new("  Test User \t").unwrap().as_str(), "Test User");
    assert!(UserName::new("   ").is_err());
    assert!(UserName::new("").is_err());
    assert_eq!(UserName::new("\u{3000}Ana\u{a0}").unwrap().as_str(), "Ana");
}

#[test]
fn email_accepts_local_at_domain_suffix() {
    assert_eq!(EmailAddress::new(" test@example.com ").unwrap().as_str(), "test@example.com");
    assert!(EmailAddress::new("first.last+tag@sub-domain.co.in").is_ok());
    for bad in ["", "test", "@example.com", "test@", "test@example", "test@.com", "test@example.",
        "a@b@c.d", "te st@example.com", "test@exa_mple.com"]
    {
        let e = EmailAddress::new(bad).unwrap_err();
        assert_eq!(e.invalid_email, bad.trim());
    }
}

#[test]
fn email_rule_agrees_with_the_pattern() {
    let pattern = regex::Regex::new(r"^[a-zA-Z0-9_.+-]+@[a-zA-Z0-9-]+\.[a-zA-Z0-9-.]+$").unwrap();
    for s in ["a@b.c", "a.b@c.d.e", "a@b..", "a@-.-", "a@b.c@d", "@b.c", "a@.c", "a@b", "a@b.",
        "x_y+z@dom-ain.org", "a@b.c ", "a@b_c.d", "é@b.c"]
    {
        assert_eq!(is_valid_email(s), pattern.is_match(s), "{s}");
    }
}

#[test]
fn age_must_be_adult() {
    assert_eq!(Age::new(18).unwrap().value(), 18);
    assert_eq!(Age::new(17).unwrap_err().invalid_age, 17);
    assert_eq!(Age::new(0).unwrap_err().invalid_age, 0);
}

#[test]
fn mobile_number_has_ten_digits() {
    assert_eq!(MobileNumber::new(9876543210).unwrap().value(), 9876543210);
    assert!(MobileNumber::new(1000000000).is_ok());
    assert_eq!(MobileNumber::new(999999999).unwrap_err().invalid_mobile_number, "999999999");
    assert_eq!(MobileNumber::new(10000000000).unwrap_err().invalid_mobile_number, "10000000000");
    assert_eq!(MobileNumber::new(0).unwrap_err().invalid_mobile_number, "0");
}

#[test]
fn pan_pattern() {
    assert_eq!(PAN::new(" ABCDE1234F ").unwrap().as_str(), "ABCDE1234F");
    for bad in ["abcde1234f", "ABCD1234F", "ABCDE12345", "ABCDE1234FG", "ABCDE12F4F", ""] {
        assert_eq!(PAN::new(bad).unwrap_err().invalid_pan, bad);
    }
}

#[test]
fn aadhar_pattern() {
    assert_eq!(Aadhar::new("123456789012").unwrap().as_str(), "123456789012");
    for bad in ["12345678901", "1234567890123", "12345678901a", "", "١٢٣٤٥٦٧٨٩٠١٢"] {
        assert!(Aadhar::new(bad).is_err(), "{bad}");
    }
}

#[test]
fn booking_window() {
    assert_eq!(StartTime::new_at(101, 100).unwrap().value(), 101);
    let e = StartTime::new_at(100, 100).unwrap_err();
    assert_eq!((e.start_time, e.now), (100, 100));
    assert!(StartTime::new(0).is_err());
    assert!(StartTime::new(u64::MAX).is_ok());
    assert_eq!(EndTime::new(11, 10).unwrap().value(), 11);
    let e = EndTime::new(10, 10).unwrap_err();
    assert_eq!((e.start_time, e.end_time), (10, 10));
}

#[test]
fn value_objects_round_trip_through_their_text() {
    let n = UserName::new("  Ravi Kumar ").unwrap();
    assert_eq!(UserName::new(n.as_str()).unwrap(), n);
    let e = EmailAddress::new("\tme@fuel.in").unwrap();
    assert_eq!(EmailAddress::new(e.as_str()).unwrap(), e);
    let p = PAN::new("ABCDE1234F\n").unwrap();
    assert_eq!(PAN::new(p.as_str()).unwrap(), p);
    let a = Aadhar::new(" 123456789012").unwrap();
    assert_eq!(Aadhar::new(a.as_str()).unwrap(), a);
    let age = Age::new(30).unwrap();
    assert_eq!(Age::new(age.value()).unwrap(), age);
    let m = MobileNumber::new(9123456789).unwrap();
    assert_eq!(MobileNumber::new(m.value()).unwrap(), m);
}

#[test]
fn request_body_reports_the_first_invalid_field() {
    let body = CreateTransactionHttpRequestBody {
        name: "Test User".to_string(),
        email_address: "test@example.com".to_string(),
        pan: "ABCDE1234F".to_string(),
        age: 25,
        car_id: 7,
        aadhar: 123456789012,
        country_code: 91,
        mobile_number: "9876543210".to_string(),
        principal_jwk: String::new(),
        start_time: 200,
        end_time: 300,
    };
    let mut b = body.clone();
    b.age = 16;
    b.pan = "bad".to_string();
    assert!(matches!(b.try_into_domain_at(100),
        Err(offchain::http::ParseCreateTransactionHttpRequestError::Pan(_))));
    let mut b = body.clone();
    b.mobile_number = "98765x3210".to_string();
    match b.try_into_domain_at(100) {
        Err(offchain::http::ParseCreateTransactionHttpRequestError::MobileNumber(e)) => {
            assert_eq!(e.invalid_mobile_number, "98765x3210")
        }
        other => panic!("unexpected {other:?}"),
    }
    let mut b = body.clone();
    b.aadhar = 12345;
    assert!(matches!(b.try_into_domain_at(100),
        Err(offchain::http::ParseCreateTransactionHttpRequestError::Aadhar(_))));
    assert!(matches!(body.clone().try_into_domain_at(200),
        Err(offchain::http::ParseCreateTransactionHttpRequestError::StartTime(_))));
    let mut b = body.clone();
    b.end_time = 200;
    assert!(matches!(b.try_into_domain_at(100),
        Err(offchain::http::ParseCreateTransactionHttpRequestError::EndTime(_))));
    let req = body.try_into_domain_at(100).unwrap();
    assert_eq!(req.mobile_number().value(), 9876543210);
    assert_eq!(req.aadhar().as_str(), "123456789012");
    let c = req.customer();
    assert_eq!(c.mobile_number, "9876543210");
    assert_eq!(c.country_code, "91");
    assert_eq!(c.name, "Test User");
}

#[test]
fn transaction_getters() {
    let t = Transaction::new(
        5,
        6,
        UserName::new("A").unwrap(),
        EmailAddress::new("a@b.c").unwrap(),
        Age::new(20).unwrap(),
        44,
        MobileNumber::new(1234567890).unwrap(),
        PAN::new("ABCDE1234F").unwrap(),
        Aadhar::new("123456789012").unwrap(),
        10,
        20,
    );
    assert_eq!((t.booking_id(), t.car_id(), t.country_code()), (5, 6, 44));
    assert_eq!((t.start_time(), t.end_time()), (10, 20));
    assert_eq!(t.name().as_str(), "A");
    assert_eq!(t.age().value(), 20);
}

#[test]
fn record_with_bad_customer_is_not_committed() {
    let mut c = customer();
    c.country_code = "99999".to_string();
    let step = commit_after_reserve(Ok(LedgerRecord {
        booking_id: 1,
        car_id: 2,
        customer: Some(c),
        start_timestamp: 1,
        end_timestamp: 2,
        total_amount: 0,
    }));
    assert!(matches!(step.result, Err(CreateTransactionError::Unknown(_))));
    assert_eq!(step.actions, vec![CommitAction::RecordFailure]);
    let step = commit_after_reserve(Ok(LedgerRecord {
        booking_id: 1,
        car_id: 2,
        customer: None,
        start_timestamp: 1,
        end_timestamp: 2,
        total_amount: 0,
    }));
    assert!(step.result.is_err());
}
