//! The HTTP boundary's plain data: the request body and its validation into a domain
//! request, and how domain errors become API errors.
use vstd::prelude::*;
use vstd::string::StringExecFns;

use crate::clock::unix_time_nanos;
use crate::delegation::DelegationError;
use crate::text::{
    decimal_of, decimal_string, is_ascii_digit, lemma_decimal_len_bound, lemma_decimal_of_digits,
    lemma_trimmed_fixed, parse_decimal, parsed_decimal, pow10,
};
use crate::transaction::{
    aadhar_of, email_of, is_adult_age, is_mobile_number, pan_of, user_name_of, Aadhar, AadharError,
    Age, AgeError, CreateTransactionError, CreateTransactionRequest, EmailAddress,
    EmailAddressError, EndTime, EndTimeError, MobileNumber, MobileNumberError, PANError,
    RequestModel, StartTime, StartTimeError, Transaction, UserName, UserNameEmptyError, PAN,
};

verus! {

// ---------------------------------------------------------------- request body

/// The body of a booking request as it arrives.
#[derive(Debug, Clone, PartialEq, Eq)]
pub struct CreateTransactionHttpRequestBody {
    pub name: String,
    pub email_address: String,
    pub pan: String,
    pub age: u8,
    pub car_id: u64,
    pub aadhar: u64,
    pub country_code: u16,
    pub mobile_number: String,
    pub principal_jwk: String,
    pub start_time: u64,
    pub end_time: u64,
}

/// Which field of a request body was invalid.
#[derive(Debug, Clone)]
pub enum ParseCreateTransactionHttpRequestError {
    Name(UserNameEmptyError),
    EmailAddress(EmailAddressError),
    Pan(PANError),
    Age(AgeError),
    StartTime(StartTimeError),
    EndTime(EndTimeError),
    Aadhar(AadharError),
    MobileNumber(MobileNumberError),
}

/// The mobile number a body holds, where its text reads as one.
pub open spec fn body_mobile(b: CreateTransactionHttpRequestBody) -> Option<int> {
    parsed_decimal(b.mobile_number@, u64::MAX as int)
}

/// The fields are checked in this order: name, email, PAN, age, Aadhar, mobile number,
/// start time, end time. The first invalid one is numbered from 1 in that order; 0
/// means all are valid at `now` (seconds since the Unix epoch).
pub open spec fn first_invalid_field(b: CreateTransactionHttpRequestBody, now: u64) -> int {
    if user_name_of(b.name@) is None {
        1
    } else if email_of(b.email_address@) is None {
        2
    } else if pan_of(b.pan@) is None {
        3
    } else if !is_adult_age(b.age) {
        4
    } else if aadhar_of(decimal_of(b.aadhar as nat)) is None {
        5
    } else if body_mobile(b) is None || !is_mobile_number(body_mobile(b)->Some_0 as u64) {
        6
    } else if b.start_time <= now {
        7
    } else if b.end_time <= b.start_time {
        8
    } else {
        0
    }
}

pub open spec fn parse_error_field(e: ParseCreateTransactionHttpRequestError) -> int {
    match e {
        ParseCreateTransactionHttpRequestError::Name(_) => 1,
        ParseCreateTransactionHttpRequestError::EmailAddress(_) => 2,
        ParseCreateTransactionHttpRequestError::Pan(_) => 3,
        ParseCreateTransactionHttpRequestError::Age(_) => 4,
        ParseCreateTransactionHttpRequestError::Aadhar(_) => 5,
        ParseCreateTransactionHttpRequestError::MobileNumber(_) => 6,
        ParseCreateTransactionHttpRequestError::StartTime(_) => 7,
        ParseCreateTransactionHttpRequestError::EndTime(_) => 8,
    }
}

/// The domain request that a valid body describes.
pub open spec fn body_request(b: CreateTransactionHttpRequestBody) -> RequestModel {
    RequestModel {
        name: user_name_of(b.name@)->Some_0,
        email: email_of(b.email_address@)->Some_0,
        age: b.age,
        pan: pan_of(b.pan@)->Some_0,
        aadhar: aadhar_of(decimal_of(b.aadhar as nat))->Some_0,
        mobile_number: body_mobile(b)->Some_0 as u64,
        country_code: b.country_code,
        car_id: b.car_id,
        start_time: b.start_time,
        end_time: b.end_time,
        principal_jwk: b.principal_jwk@,
    }
}

/// A body's Aadhar number passes the Aadhar check exactly when it has twelve digits.
pub proof fn lemma_aadhar_number(n: u64)
    ensures
        aadhar_of(decimal_of(n as nat)) is Some <==> 100_000_000_000 <= n < 1_000_000_000_000,
{
    let d = decimal_of(n as nat);
    lemma_decimal_of_digits(n as nat);
    lemma_decimal_len_bound(n as nat, 12);
    lemma_decimal_len_bound(n as nat, 11);
    reveal_with_fuel(pow10, 13);
    assert(is_ascii_digit(d[0]) && is_ascii_digit(d.last()));
    lemma_trimmed_fixed(d);
}

impl CreateTransactionHttpRequestBody {
    /// Validates the body against the wall clock; see `try_into_domain_at`.
    pub fn try_into_domain(self) -> (r: Result<
        CreateTransactionRequest,
        ParseCreateTransactionHttpRequestError,
    >)
        ensures
            r matches Ok(req) ==> req@ == body_request(self),
            exists|now: u64|
                now <= u64::MAX / 1_000_000_000 && (r is Ok <==> #[trigger] first_invalid_field(
                    self,
                    now,
                ) == 0) && (r matches Err(e) ==> parse_error_field(e) == first_invalid_field(
                    self,
                    now,
                )),
    {
        let now = unix_time_nanos() / 1_000_000_000;
        let r = self.try_into_domain_at(now);
        assert(now <= u64::MAX / 1_000_000_000 && (r is Ok <==> first_invalid_field(self, now) == 0)
            && (r matches Err(e) ==> parse_error_field(e) == first_invalid_field(self, now)));
        r
    }

    /// Validates every field into its value object, failing on the first invalid one;
    /// the start time must lie after `now` (seconds since the Unix epoch).
    pub fn try_into_domain_at(self, now: u64) -> (r: Result<
        CreateTransactionRequest,
        ParseCreateTransactionHttpRequestError,
    >)
        ensures
            r is Ok <==> first_invalid_field(self, now) == 0,
            r matches Ok(req) ==> req@ == body_request(self),
            r matches Err(e) ==> parse_error_field(e) == first_invalid_field(self, now),
            r matches Err(ParseCreateTransactionHttpRequestError::MobileNumber(e)) ==> (
            body_mobile(self) is None ==> e.invalid_mobile_number@ == self.mobile_number@),
            r matches Err(ParseCreateTransactionHttpRequestError::MobileNumber(e)) ==> (
            body_mobile(self) matches Some(m) ==> e.invalid_mobile_number@ == decimal_of(m as nat)),
    {
        let name = match UserName::new(self.name.as_str()) {
            Ok(v) => v,
            Err(e) => return Err(ParseCreateTransactionHttpRequestError::Name(e)),
        };
        let email = match EmailAddress::new(self.email_address.as_str()) {
            Ok(v) => v,
            Err(e) => return Err(ParseCreateTransactionHttpRequestError::EmailAddress(e)),
        };
        let pan = match PAN::new(self.pan.as_str()) {
            Ok(v) => v,
            Err(e) => return Err(ParseCreateTransactionHttpRequestError::Pan(e)),
        };
        let age = match Age::new(self.age) {
            Ok(v) => v,
            Err(e) => return Err(ParseCreateTransactionHttpRequestError::Age(e)),
        };
        let aadhar_text = decimal_string(self.aadhar);
        let aadhar = match Aadhar::new(aadhar_text.as_str()) {
            Ok(v) => v,
            Err(e) => return Err(ParseCreateTransactionHttpRequestError::Aadhar(e)),
        };
        let mobile = match parse_decimal(self.mobile_number.as_str(), u64::MAX) {
            Some(v) => v,
            None => {
                return Err(
                    ParseCreateTransactionHttpRequestError::MobileNumber(
                        MobileNumberError { invalid_mobile_number: self.mobile_number.clone() },
                    ),
                );
            },
        };
        let mobile_number = match MobileNumber::new(mobile) {
            Ok(v) => v,
            Err(e) => return Err(ParseCreateTransactionHttpRequestError::MobileNumber(e)),
        };
        let start_time = match StartTime::new_at(self.start_time, now) {
            Ok(v) => v,
            Err(e) => return Err(ParseCreateTransactionHttpRequestError::StartTime(e)),
        };
        let end_time = match EndTime::new(self.end_time, self.start_time) {
            Ok(v) => v,
            Err(e) => return Err(ParseCreateTransactionHttpRequestError::EndTime(e)),
        };
        Ok(
            CreateTransactionRequest::new(
                name,
                email,
                age,
                pan,
                aadhar,
                mobile_number,
                self.country_code,
                self.car_id,
                start_time,
                end_time,
                self.principal_jwk,
            ),
        )
    }
}

// ---------------------------------------------------------------- responses

/// The response data of a successful commit: the booking id.
#[derive(Debug, Clone, PartialEq, Eq)]
pub struct CreateTransactionResponseData {
    pub id: u64,
}

impl CreateTransactionResponseData {
    pub fn from_transaction(transaction: &Transaction) -> (r: Self)
        ensures
            r.id == transaction@.booking_id,
    {
        CreateTransactionResponseData { id: transaction.booking_id() }
    }
}

/// The data of every error response.
#[derive(Debug, Clone, PartialEq, Eq)]
pub struct ApiErrorData {
    pub message: String,
}

/// An error as the API reports it.
#[derive(Debug, Clone, PartialEq, Eq)]
pub enum ApiError {
    InternalServerError(String),
    UnprocessableEntity(String),
    Conflict(String),
}

/// An API error as a status code and a message.
pub open spec fn api_error_view(e: ApiError) -> (u16, Seq<char>) {
    match e {
        ApiError::InternalServerError(m) => (500, m@),
        ApiError::UnprocessableEntity(m) => (422, m@),
        ApiError::Conflict(m) => (409, m@),
    }
}

pub open spec fn delegation_error_text(d: DelegationError) -> Seq<char> {
    match d {
        DelegationError::EmptyChain => "the delegation chain is empty"@,
        DelegationError::InvalidSignature { index } => "link "@ + decimal_of(index as nat)
            + " of the delegation chain has an invalid signature"@,
        DelegationError::Expired { index } => "link "@ + decimal_of(index as nat)
            + " of the delegation chain has expired"@,
        DelegationError::MalformedKey => "the session key is malformed"@,
        DelegationError::SessionKeyMismatch => "the session key is not the delegated key"@,
    }
}

/// How each domain error is reported: field errors are unprocessable; refusals by the
/// ledger and duplicate bookings are conflicts; failures to reach the ledger, and
/// unclassified failures (among them a payment link the gateway would not issue), are
/// internal errors.
pub open spec fn create_error_response(e: CreateTransactionError) -> (u16, Seq<char>) {
    match e {
        CreateTransactionError::Unknown(c) => (500, c@),
        CreateTransactionError::InvalidAge(a) => (
            422,
            "Invalid age: "@ + decimal_of(a.invalid_age as nat) + " is not a valid age for a driver"@,
        ),
        CreateTransactionError::InvalidPAN(p) => (
            422,
            "Invalid PAN: "@ + p.invalid_pan@ + " is not a valid PAN"@,
        ),
        CreateTransactionError::InvalidAadhar(a) => (
            422,
            "Invalid Aadhar: "@ + a.invalid_aadhar@ + " is not a valid Aadhar"@,
        ),
        CreateTransactionError::UserNameEmpty(_) => (
            422,
            "Username cannot be empty: User name cannot be empty"@,
        ),
        CreateTransactionError::InvalidEmail(m) => (
            422,
            "Invalid email address: "@ + m.invalid_email@ + " is not a valid email address"@,
        ),
        CreateTransactionError::InvalidMobile(m) => (
            422,
            "Invalid mobile number: "@ + m.invalid_mobile_number@
                + " is not a valid mobile number"@,
        ),
        CreateTransactionError::StartTimeError => (422, "Invalid start time for transaction"@),
        CreateTransactionError::EndTimeError => (422, "Invalid end time for transaction"@),
        CreateTransactionError::TransactionExists { transaction_id } => (
            409,
            "Transaction with ID "@ + transaction_id@ + " already exists"@,
        ),
        CreateTransactionError::InsufficientFunds => (
            422,
            "Insufficient funds for this transaction"@,
        ),
        CreateTransactionError::InvalidDelegation(d) => (
            422,
            "Invalid delegation: "@ + delegation_error_text(d),
        ),
        CreateTransactionError::CanisterCommunicationError(m) => (
            500,
            "Failed to communicate with the canister: "@ + m@,
        ),
        CreateTransactionError::CanisterRejectedError(m) => (409, m@),
    }
}

/// How each invalid field of a request body is reported: unprocessable, naming the value.
pub open spec fn parse_error_response(e: ParseCreateTransactionHttpRequestError) -> (u16, Seq<char>) {
    match e {
        ParseCreateTransactionHttpRequestError::Name(_) => (
            422,
            "Username cannot be empty: User name cannot be empty"@,
        ),
        ParseCreateTransactionHttpRequestError::EmailAddress(m) => (
            422,
            "Invalid email address: "@ + m.invalid_email@,
        ),
        ParseCreateTransactionHttpRequestError::Pan(p) => (422, "Invalid PAN: "@ + p.invalid_pan@),
        ParseCreateTransactionHttpRequestError::Age(a) => (
            422,
            "Invalid age: "@ + decimal_of(a.invalid_age as nat),
        ),
        ParseCreateTransactionHttpRequestError::Aadhar(a) => (
            422,
            "Invalid Aadhar: "@ + a.invalid_aadhar@,
        ),
        ParseCreateTransactionHttpRequestError::MobileNumber(m) => (
            422,
            "Invalid mobile number: "@ + m.invalid_mobile_number@,
        ),
        ParseCreateTransactionHttpRequestError::StartTime(t) => (
            422,
            "Invalid start time: "@ + decimal_of(t.start_time as nat),
        ),
        ParseCreateTransactionHttpRequestError::EndTime(t) => (
            422,
            "Invalid end time: "@ + decimal_of(t.end_time as nat),
        ),
    }
}

fn join(a: &str, b: &str) -> (r: String)
    ensures
        r@ == a@ + b@,
{
    String::from_str(a).concat(b)
}

fn join3(a: &str, b: &str, c: &str) -> (r: String)
    ensures
        r@ == a@ + b@ + c@,
{
    String::from_str(a).concat(b).concat(c)
}

/// The text of a delegation failure.
pub fn delegation_error_message(d: &DelegationError) -> (r: String)
    ensures
        r@ == delegation_error_text(*d),
{
    match d {
        DelegationError::EmptyChain => String::from_str("the delegation chain is empty"),
        DelegationError::InvalidSignature { index } => {
            let i = decimal_string(*index as u64);
            join3("link ", i.as_str(), " of the delegation chain has an invalid signature")
        },
        DelegationError::Expired { index } => {
            let i = decimal_string(*index as u64);
            join3("link ", i.as_str(), " of the delegation chain has expired")
        },
        DelegationError::MalformedKey => String::from_str("the session key is malformed"),
        DelegationError::SessionKeyMismatch => String::from_str(
            "the session key is not the delegated key",
        ),
    }
}

impl ApiError {
    /// The HTTP status the error is answered with.
    pub fn status_code(&self) -> (r: u16)
        ensures
            r == api_error_view(*self).0,
    {
        match self {
            ApiError::InternalServerError(_) => 500,
            ApiError::UnprocessableEntity(_) => 422,
            ApiError::Conflict(_) => 409,
        }
    }

    /// The message the caller is shown: internal details are withheld.
    pub fn client_message(&self) -> (r: String)
        ensures
            self is InternalServerError ==> r@ == "Internal Server Error"@,
            !(self is InternalServerError) ==> r@ == api_error_view(*self).1,
    {
        match self {
            ApiError::InternalServerError(_) => String::from_str("Internal Server Error"),
            ApiError::UnprocessableEntity(m) => m.clone(),
            ApiError::Conflict(m) => m.clone(),
        }
    }

    /// How a domain error is reported.
    pub fn from_create_error(e: CreateTransactionError) -> (r: Self)
        ensures
            api_error_view(r) == create_error_response(e),
    {
        match e {
            CreateTransactionError::Unknown(cause) => ApiError::InternalServerError(cause),
            CreateTransactionError::InvalidAge(a) => {
                let n = decimal_string(a.invalid_age as u64);
                ApiError::UnprocessableEntity(
                    join3("Invalid age: ", n.as_str(), " is not a valid age for a driver"),
                )
            },
            CreateTransactionError::InvalidPAN(p) => ApiError::UnprocessableEntity(
                join3("Invalid PAN: ", p.invalid_pan.as_str(), " is not a valid PAN"),
            ),
            CreateTransactionError::InvalidAadhar(a) => ApiError::UnprocessableEntity(
                join3("Invalid Aadhar: ", a.invalid_aadhar.as_str(), " is not a valid Aadhar"),
            ),
            CreateTransactionError::UserNameEmpty(_) => ApiError::UnprocessableEntity(
                String::from_str("Username cannot be empty: User name cannot be empty"),
            ),
            CreateTransactionError::InvalidEmail(m) => ApiError::UnprocessableEntity(
                join3(
                    "Invalid email address: ",
                    m.invalid_email.as_str(),
                    " is not a valid email address",
                ),
            ),
            CreateTransactionError::InvalidMobile(m) => ApiError::UnprocessableEntity(
                join3(
                    "Invalid mobile number: ",
                    m.invalid_mobile_number.as_str(),
                    " is not a valid mobile number",
                ),
            ),
            CreateTransactionError::StartTimeError => ApiError::UnprocessableEntity(
                String::from_str("Invalid start time for transaction"),
            ),
            CreateTransactionError::EndTimeError => ApiError::UnprocessableEntity(
                String::from_str("Invalid end time for transaction"),
            ),
            CreateTransactionError::TransactionExists { transaction_id } => ApiError::Conflict(
                join3("Transaction with ID ", transaction_id.as_str(), " already exists"),
            ),
            CreateTransactionError::InsufficientFunds => ApiError::UnprocessableEntity(
                String::from_str("Insufficient funds for this transaction"),
            ),
            CreateTransactionError::InvalidDelegation(d) => {
                let t = delegation_error_message(&d);
                ApiError::UnprocessableEntity(join("Invalid delegation: ", t.as_str()))
            },
            CreateTransactionError::CanisterCommunicationError(m) => ApiError::InternalServerError(
                join("Failed to communicate with the canister: ", m.as_str()),
            ),
            CreateTransactionError::CanisterRejectedError(m) => ApiError::Conflict(m),
        }
    }

    /// How an invalid request body is reported.
    pub fn from_parse_error(e: ParseCreateTransactionHttpRequestError) -> (r: Self)
        ensures
            api_error_view(r) == parse_error_response(e),
    {
        match e {
            ParseCreateTransactionHttpRequestError::Name(_) => ApiError::UnprocessableEntity(
                String::from_str("Username cannot be empty: User name cannot be empty"),
            ),
            ParseCreateTransactionHttpRequestError::EmailAddress(m) => ApiError::UnprocessableEntity(
                join("Invalid email address: ", m.invalid_email.as_str()),
            ),
            ParseCreateTransactionHttpRequestError::Pan(p) => ApiError::UnprocessableEntity(
                join("Invalid PAN: ", p.invalid_pan.as_str()),
            ),
            ParseCreateTransactionHttpRequestError::Age(a) => {
                let n = decimal_string(a.invalid_age as u64);
                ApiError::UnprocessableEntity(join("Invalid age: ", n.as_str()))
            },
            ParseCreateTransactionHttpRequestError::Aadhar(a) => ApiError::UnprocessableEntity(
                join("Invalid Aadhar: ", a.invalid_aadhar.as_str()),
            ),
            ParseCreateTransactionHttpRequestError::MobileNumber(m) => ApiError::UnprocessableEntity(
                join("Invalid mobile number: ", m.invalid_mobile_number.as_str()),
            ),
            ParseCreateTransactionHttpRequestError::StartTime(t) => {
                let n = decimal_string(t.start_time);
                ApiError::UnprocessableEntity(join("Invalid start time: ", n.as_str()))
            },
            ParseCreateTransactionHttpRequestError::EndTime(t) => {
                let n = decimal_string(t.end_time);
                ApiError::UnprocessableEntity(join("Invalid end time: ", n.as_str()))
            },
        }
    }
}

} // verus!
