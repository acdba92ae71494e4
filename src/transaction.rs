//! Value objects of the booking domain and the records built from them.
//!
//! Each value object is checked once, when it is made, and is immutable afterwards.
use vstd::prelude::*;
use vstd::string::StrSliceExecFns;
use vstd::string::StringExecFns;

use crate::clock::unix_time_nanos;
use crate::crypto::{jwk_secret, secret_from_jwk};
use crate::delegation::DelegationError;
use crate::ledger::Customer;
use crate::text::{
    all_digits, decimal_of, decimal_string, is_ascii_alphanumeric, is_ascii_digit, is_ascii_upper,
    lemma_trimmed_idempotent, trim, trimmed,
};

verus! {

// ---------------------------------------------------------------- rules

/// A user name is what is left after trimming, and must not be empty.
pub open spec fn user_name_of(raw: Seq<char>) -> Option<Seq<char>> {
    if trimmed(raw).len() == 0 {
        None
    } else {
        Some(trimmed(raw))
    }
}

pub open spec fn is_local_char(c: char) -> bool {
    is_ascii_alphanumeric(c) || c == '_' || c == '.' || c == '+' || c == '-'
}

pub open spec fn is_domain_char(c: char) -> bool {
    is_ascii_alphanumeric(c) || c == '-'
}

pub open spec fn is_suffix_char(c: char) -> bool {
    is_ascii_alphanumeric(c) || c == '-' || c == '.'
}

/// `s` reads `local@domain.suffix` with `@` at `at` and the first dot of the domain at `dot`.
pub open spec fn email_parts(s: Seq<char>, at: int, dot: int) -> bool {
    &&& 0 < at
    &&& at + 1 < dot
    &&& dot + 1 < s.len()
    &&& s[at] == '@'
    &&& s[dot] == '.'
    &&& forall|i: int| 0 <= i < at ==> is_local_char(#[trigger] s[i])
    &&& forall|i: int| at < i < dot ==> is_domain_char(#[trigger] s[i])
    &&& forall|i: int| dot < i < s.len() ==> is_suffix_char(#[trigger] s[i])
}

/// One or more local characters, `@`, one or more domain characters, `.`, one or more
/// suffix characters, and nothing else.
pub open spec fn is_email(s: Seq<char>) -> bool {
    exists|at: int, dot: int| email_parts(s, at, dot)
}

pub open spec fn email_of(raw: Seq<char>) -> Option<Seq<char>> {
    if is_email(trimmed(raw)) {
        Some(trimmed(raw))
    } else {
        None
    }
}

/// Five capital letters, four digits, one capital letter (all ASCII).
pub open spec fn is_pan(s: Seq<char>) -> bool {
    &&& s.len() == 10
    &&& forall|i: int| 0 <= i < 5 ==> is_ascii_upper(#[trigger] s[i])
    &&& forall|i: int| 5 <= i < 9 ==> is_ascii_digit(#[trigger] s[i])
    &&& is_ascii_upper(s[9])
}

pub open spec fn pan_of(raw: Seq<char>) -> Option<Seq<char>> {
    if is_pan(trimmed(raw)) {
        Some(trimmed(raw))
    } else {
        None
    }
}

/// Exactly twelve ASCII digits.
pub open spec fn is_aadhar(s: Seq<char>) -> bool {
    s.len() == 12 && all_digits(s)
}

pub open spec fn aadhar_of(raw: Seq<char>) -> Option<Seq<char>> {
    if is_aadhar(trimmed(raw)) {
        Some(trimmed(raw))
    } else {
        None
    }
}

/// A booking may only start strictly after `now`.
pub open spec fn starts_after(start_time: u64, now: u64) -> bool {
    now < start_time
}

pub open spec fn is_adult_age(age: u8) -> bool {
    age >= 18
}

/// Exactly ten decimal digits, so no leading zero.
pub open spec fn is_mobile_number(n: u64) -> bool {
    1_000_000_000 <= n && n < 10_000_000_000
}

// ---------------------------------------------------------------- user name

#[derive(Clone, Debug, PartialEq, Eq, PartialOrd, Ord, Hash)]
pub struct UserName(pub String);

#[derive(Clone, Debug)]
pub struct UserNameEmptyError;

impl View for UserName {
    type V = Seq<char>;

    open spec fn view(&self) -> Seq<char> {
        self.0@
    }
}

impl UserName {
    pub fn new(raw: &str) -> (r: Result<Self, UserNameEmptyError>)
        ensures
            r matches Ok(n) ==> user_name_of(raw@) == Some(n@),
            r is Err <==> user_name_of(raw@) is None,
    {
        let trimmed = trim(raw);
        if trimmed.as_str().is_empty() {
            Err(UserNameEmptyError)
        } else {
            Ok(UserName(trimmed))
        }
    }

    pub fn as_str(&self) -> (r: &str)
        ensures
            r@ == self@,
    {
        self.0.as_str()
    }
}

// ---------------------------------------------------------------- email address

#[derive(Clone, Debug, PartialEq, Eq, PartialOrd, Ord, Hash)]
pub struct EmailAddress(pub String);

#[derive(Clone, Debug)]
pub struct EmailAddressError {
    pub invalid_email: String,
}

impl View for EmailAddress {
    type V = Seq<char>;

    open spec fn view(&self) -> Seq<char> {
        self.0@
    }
}

/// Index of the first character of `s` at or after `from` outside character class
/// `class` (see `email_class`), or the length of `s`.
fn scan_email_run(s: &str, n: usize, from: usize, class: u8) -> (r: usize)
    requires
        n == s@.len(),
        from <= n,
        class < 3,
    ensures
        from <= r <= n,
        forall|i: int| from <= i < r ==> email_class(class, #[trigger] s@[i]),
        r < n ==> !email_class(class, s@[r as int]),
{
    let mut i = from;
    while i < n
        invariant
            n == s@.len(),
            from <= i <= n,
            forall|k: int| from <= k < i ==> email_class(class, #[trigger] s@[k]),
        decreases n - i,
    {
        let c = s.get_char(i);
        let ok = ('0' <= c && c <= '9') || ('A' <= c && c <= 'Z') || ('a' <= c && c <= 'z') || c
            == '-' || (class != 1 && c == '.') || (class == 0 && (c == '_' || c == '+'));
        if !ok {
            return i;
        }
        i = i + 1;
    }
    i
}

pub open spec fn email_class(class: u8, c: char) -> bool {
    if class == 0 {
        is_local_char(c)
    } else if class == 1 {
        is_domain_char(c)
    } else {
        is_suffix_char(c)
    }
}

/// The split of an email address is fixed by its text: the `@` ends the longest run of
/// local characters at the start, and the dot ends the longest run of domain characters
/// after the `@`.
proof fn lemma_email_split_determined(s: Seq<char>, a: int, d: int, at: int, dot: int)
    requires
        email_parts(s, a, d),
        0 <= at <= s.len(),
        forall|i: int| 0 <= i < at ==> is_local_char(#[trigger] s[i]),
        at < s.len() ==> !is_local_char(s[at]),
    ensures
        a == at,
        at < dot <= s.len() && (forall|i: int| at < i < dot ==> is_domain_char(#[trigger] s[i])) && (
        dot < s.len() ==> !is_domain_char(s[dot])) ==> d == dot,
{
    if a < at {
        assert(is_local_char(s[a]));
    } else if a > at {
        assert(is_local_char(s[at]));
    }
    if at < dot <= s.len() && (forall|i: int| at < i < dot ==> is_domain_char(#[trigger] s[i])) && (
    dot < s.len() ==> !is_domain_char(s[dot])) {
        if d < dot {
            assert(is_domain_char(s[d]));
        } else if d > dot {
            assert(is_domain_char(s[dot]));
        }
    }
}

/// Whether `s` is an email address in the form `local@domain.suffix`.
pub fn is_valid_email(s: &str) -> (r: bool)
    ensures
        r == is_email(s@),
{
    let n = s.unicode_len();
    let at = scan_email_run(s, n, 0, 0);
    if at == 0 || at >= n || s.get_char(at) != '@' {
        proof {
            if is_email(s@) {
                let (a, d) = choose|a: int, d: int| email_parts(s@, a, d);
                lemma_email_split_determined(s@, a, d, at as int, at as int);
            }
        }
        return false;
    }
    let dot = scan_email_run(s, n, at + 1, 1);
    if dot == at + 1 || dot >= n || s.get_char(dot) != '.' {
        proof {
            if is_email(s@) {
                let (a, d) = choose|a: int, d: int| email_parts(s@, a, d);
                lemma_email_split_determined(s@, a, d, at as int, dot as int);
            }
        }
        return false;
    }
    let end = scan_email_run(s, n, dot + 1, 2);
    if end != n || dot + 1 >= n {
        proof {
            if is_email(s@) {
                let (a, d) = choose|a: int, d: int| email_parts(s@, a, d);
                lemma_email_split_determined(s@, a, d, at as int, dot as int);
                if end < n {
                    assert(is_suffix_char(s@[end as int]));
                }
            }
        }
        return false;
    }
    assert(email_parts(s@, at as int, dot as int));
    true
}

impl EmailAddress {
    pub fn new(raw: &str) -> (r: Result<Self, EmailAddressError>)
        ensures
            r matches Ok(e) ==> email_of(raw@) == Some(e@),
            r matches Err(e) ==> email_of(raw@) is None && e.invalid_email@ == trimmed(raw@),
    {
        let trimmed = trim(raw);
        if is_valid_email(trimmed.as_str()) {
            Ok(EmailAddress(trimmed))
        } else {
            Err(EmailAddressError { invalid_email: trimmed })
        }
    }

    pub fn as_str(&self) -> (r: &str)
        ensures
            r@ == self@,
    {
        self.0.as_str()
    }
}

// ---------------------------------------------------------------- age

#[derive(Debug, PartialEq, Eq, PartialOrd, Ord, Hash)]
pub struct Age(u8);

#[derive(Clone, Debug)]
pub struct AgeError {
    pub invalid_age: u8,
}

impl View for Age {
    type V = u8;

    closed spec fn view(&self) -> u8 {
        self.0
    }
}

impl Clone for Age {
    fn clone(&self) -> (r: Self)
        ensures
            r@ == self@,
    {
        proof {
            use_type_invariant(self);
        }
        Age(self.0)
    }
}

impl Age {
    #[verifier::type_invariant]
    spec fn inv(&self) -> bool {
        is_adult_age(self.0)
    }

    pub fn new(age: u8) -> (r: Result<Self, AgeError>)
        ensures
            r matches Ok(a) ==> is_adult_age(age) && a@ == age,
            r matches Err(e) ==> !is_adult_age(age) && e.invalid_age == age,
    {
        if age < 18 {
            Err(AgeError { invalid_age: age })
        } else {
            Ok(Age(age))
        }
    }

    pub fn value(&self) -> (r: u8)
        ensures
            r == self@,
            is_adult_age(r),
    {
        proof {
            use_type_invariant(self);
        }
        self.0
    }
}

// ---------------------------------------------------------------- mobile number

#[derive(Debug, PartialEq, Eq, PartialOrd, Ord, Hash)]
pub struct MobileNumber(u64);

#[derive(Clone, Debug)]
pub struct MobileNumberError {
    pub invalid_mobile_number: String,
}

impl View for MobileNumber {
    type V = u64;

    closed spec fn view(&self) -> u64 {
        self.0
    }
}

impl Clone for MobileNumber {
    fn clone(&self) -> (r: Self)
        ensures
            r@ == self@,
    {
        proof {
            use_type_invariant(self);
        }
        MobileNumber(self.0)
    }
}

impl MobileNumber {
    #[verifier::type_invariant]
    spec fn inv(&self) -> bool {
        is_mobile_number(self.0)
    }

    pub fn new(mobile_number: u64) -> (r: Result<Self, MobileNumberError>)
        ensures
            r matches Ok(m) ==> is_mobile_number(mobile_number) && m@ == mobile_number,
            r matches Err(e) ==> !is_mobile_number(mobile_number) && e.invalid_mobile_number@
                == decimal_of(mobile_number as nat),
    {
        if mobile_number < 1_000_000_000 || mobile_number >= 10_000_000_000 {
            Err(MobileNumberError { invalid_mobile_number: decimal_string(mobile_number) })
        } else {
            Ok(MobileNumber(mobile_number))
        }
    }

    pub fn value(&self) -> (r: u64)
        ensures
            r == self@,
            is_mobile_number(r),
    {
        proof {
            use_type_invariant(self);
        }
        self.0
    }
}

// ---------------------------------------------------------------- PAN

#[derive(Debug, PartialEq, Eq, PartialOrd, Ord, Hash)]
pub struct PAN(String);

#[derive(Clone, Debug)]
pub struct PANError {
    pub invalid_pan: String,
}

impl View for PAN {
    type V = Seq<char>;

    closed spec fn view(&self) -> Seq<char> {
        self.0@
    }
}

impl Clone for PAN {
    fn clone(&self) -> (r: Self)
        ensures
            r@ == self@,
    {
        proof {
            use_type_invariant(self);
        }
        PAN(self.0.clone())
    }
}

impl PAN {
    #[verifier::type_invariant]
    spec fn inv(&self) -> bool {
        is_pan(self.0@)
    }

    pub fn new(pan: &str) -> (r: Result<Self, PANError>)
        ensures
            r matches Ok(p) ==> pan_of(pan@) == Some(p@),
            r matches Err(e) ==> pan_of(pan@) is None && e.invalid_pan@ == trimmed(pan@),
    {
        let trimmed = trim(pan);
        if PAN::validate_pan(trimmed.as_str()) {
            Ok(PAN(trimmed))
        } else {
            Err(PANError { invalid_pan: trimmed })
        }
    }

    fn validate_pan(pan: &str) -> (r: bool)
        ensures
            r == is_pan(pan@),
    {
        let n = pan.unicode_len();
        if n != 10 {
            return false;
        }
        let mut i: usize = 0;
        while i < 10
            invariant
                n == 10,
                pan@.len() == 10,
                0 <= i <= 10,
                forall|k: int| 0 <= k < i && k < 5 ==> is_ascii_upper(#[trigger] pan@[k]),
                forall|k: int| 5 <= k < i && k < 9 ==> is_ascii_digit(#[trigger] pan@[k]),
                i == 10 ==> is_ascii_upper(pan@[9]),
            decreases 10 - i,
        {
            let c = pan.get_char(i);
            let ok = if 5 <= i && i < 9 {
                '0' <= c && c <= '9'
            } else {
                'A' <= c && c <= 'Z'
            };
            if !ok {
                return false;
            }
            i = i + 1;
        }
        true
    }

    pub fn as_str(&self) -> (r: &str)
        ensures
            r@ == self@,
            is_pan(r@),
    {
        proof {
            use_type_invariant(self);
        }
        self.0.as_str()
    }
}

// ---------------------------------------------------------------- Aadhar

#[derive(Debug, PartialEq, Eq, PartialOrd, Ord, Hash)]
pub struct Aadhar(String);

#[derive(Clone, Debug)]
pub struct AadharError {
    pub invalid_aadhar: String,
}

impl View for Aadhar {
    type V = Seq<char>;

    closed spec fn view(&self) -> Seq<char> {
        self.0@
    }
}

impl Clone for Aadhar {
    fn clone(&self) -> (r: Self)
        ensures
            r@ == self@,
    {
        proof {
            use_type_invariant(self);
        }
        Aadhar(self.0.clone())
    }
}

impl Aadhar {
    #[verifier::type_invariant]
    spec fn inv(&self) -> bool {
        is_aadhar(self.0@)
    }

    pub fn new(aadhar: &str) -> (r: Result<Self, AadharError>)
        ensures
            r matches Ok(a) ==> aadhar_of(aadhar@) == Some(a@),
            r matches Err(e) ==> aadhar_of(aadhar@) is None && e.invalid_aadhar@ == trimmed(
                aadhar@,
            ),
    {
        let trimmed = trim(aadhar);
        if Aadhar::validate_aadhar(trimmed.as_str()) {
            Ok(Aadhar(trimmed))
        } else {
            Err(AadharError { invalid_aadhar: trimmed })
        }
    }

    fn validate_aadhar(aadhar: &str) -> (r: bool)
        ensures
            r == is_aadhar(aadhar@),
    {
        let n = aadhar.unicode_len();
        if n != 12 {
            return false;
        }
        let mut i: usize = 0;
        while i < 12
            invariant
                n == 12,
                aadhar@.len() == 12,
                0 <= i <= 12,
                forall|k: int| 0 <= k < i ==> is_ascii_digit(#[trigger] aadhar@[k]),
            decreases 12 - i,
        {
            let c = aadhar.get_char(i);
            if !('0' <= c && c <= '9') {
                return false;
            }
            i = i + 1;
        }
        true
    }

    pub fn as_str(&self) -> (r: &str)
        ensures
            r@ == self@,
            is_aadhar(r@),
    {
        proof {
            use_type_invariant(self);
        }
        self.0.as_str()
    }
}

// ---------------------------------------------------------------- booking window

#[derive(Clone, Debug, PartialEq, Eq, PartialOrd, Ord, Hash)]
pub struct StartTime(u64);

#[derive(Clone, Debug)]
pub struct StartTimeError {
    pub start_time: u64,
    pub now: u64,
}

impl View for StartTime {
    type V = u64;

    closed spec fn view(&self) -> u64 {
        self.0
    }
}

impl StartTime {
    /// Checks `start_time` (seconds since the Unix epoch) against the wall clock.
    pub fn new(start_time: u64) -> (r: Result<Self, StartTimeError>)
        ensures
            r matches Ok(t) ==> t@ == start_time,
            r matches Err(e) ==> e.start_time == start_time && start_time <= e.now,
            exists|now: u64|
                now <= u64::MAX / 1_000_000_000 && (r is Ok <==> #[trigger] starts_after(start_time, now))
                    && (r matches Err(e) ==> e.now == now),
    {
        let now = unix_time_nanos() / 1_000_000_000;
        let r = StartTime::new_at(start_time, now);
        assert(now <= u64::MAX / 1_000_000_000 && (r is Ok <==> starts_after(start_time, now)) && (r matches Err(
            e,
        ) ==> e.now == now));
        r
    }

    /// A start time must lie strictly after `now` (seconds since the Unix epoch).
    pub fn new_at(start_time: u64, now: u64) -> (r: Result<Self, StartTimeError>)
        ensures
            r matches Ok(t) ==> now < start_time && t@ == start_time,
            r matches Err(e) ==> start_time <= now && e.start_time == start_time && e.now == now,
    {
        if start_time <= now {
            Err(StartTimeError { start_time, now })
        } else {
            Ok(StartTime(start_time))
        }
    }

    pub fn value(&self) -> (r: u64)
        ensures
            r == self@,
    {
        self.0
    }
}

#[derive(Clone, Debug, PartialEq, Eq, PartialOrd, Ord, Hash)]
pub struct EndTime(u64);

#[derive(Clone, Debug)]
pub struct EndTimeError {
    pub start_time: u64,
    pub end_time: u64,
}

impl View for EndTime {
    type V = u64;

    closed spec fn view(&self) -> u64 {
        self.0
    }
}

impl EndTime {
    /// An end time must lie strictly after the start time.
    pub fn new(end_time: u64, start_time: u64) -> (r: Result<Self, EndTimeError>)
        ensures
            r matches Ok(t) ==> start_time < end_time && t@ == end_time,
            r matches Err(e) ==> end_time <= start_time && e.start_time == start_time && e.end_time
                == end_time,
    {
        if end_time <= start_time {
            Err(EndTimeError { start_time, end_time })
        } else {
            Ok(EndTime(end_time))
        }
    }

    pub fn value(&self) -> (r: u64)
        ensures
            r == self@,
    {
        self.0
    }
}

// ---------------------------------------------------------------- transaction

/// What a committed booking holds, as plain values.
pub struct TransactionModel {
    pub booking_id: u64,
    pub car_id: u64,
    pub name: Seq<char>,
    pub email: Seq<char>,
    pub age: u8,
    pub country_code: u16,
    pub mobile_number: u64,
    pub pan: Seq<char>,
    pub aadhar: Seq<char>,
    pub start_time: u64,
    pub end_time: u64,
}

/// A committed booking. Made only from what the ledger confirmed.
#[derive(Clone, Debug, PartialEq, Eq, PartialOrd, Ord, Hash)]
pub struct Transaction {
    booking_id: u64,
    car_id: u64,
    name: UserName,
    email: EmailAddress,
    age: Age,
    country_code: u16,
    mobile_number: MobileNumber,
    pan: PAN,
    aadhar: Aadhar,
    start_time: u64,
    end_time: u64,
}

impl View for Transaction {
    type V = TransactionModel;

    closed spec fn view(&self) -> TransactionModel {
        TransactionModel {
            booking_id: self.booking_id,
            car_id: self.car_id,
            name: self.name@,
            email: self.email@,
            age: self.age@,
            country_code: self.country_code,
            mobile_number: self.mobile_number@,
            pan: self.pan@,
            aadhar: self.aadhar@,
            start_time: self.start_time,
            end_time: self.end_time,
        }
    }
}

impl Transaction {
    pub fn new(
        booking_id: u64,
        car_id: u64,
        name: UserName,
        email: EmailAddress,
        age: Age,
        country_code: u16,
        mobile_number: MobileNumber,
        pan: PAN,
        aadhar: Aadhar,
        start_time: u64,
        end_time: u64,
    ) -> (r: Self)
        ensures
            r@ == (TransactionModel {
                booking_id,
                car_id,
                name: name@,
                email: email@,
                age: age@,
                country_code,
                mobile_number: mobile_number@,
                pan: pan@,
                aadhar: aadhar@,
                start_time,
                end_time,
            }),
    {
        Transaction {
            booking_id,
            car_id,
            name,
            email,
            age,
            country_code,
            mobile_number,
            pan,
            aadhar,
            start_time,
            end_time,
        }
    }

    pub fn booking_id(&self) -> (r: u64)
        ensures
            r == self@.booking_id,
    {
        self.booking_id
    }

    pub fn car_id(&self) -> (r: u64)
        ensures
            r == self@.car_id,
    {
        self.car_id
    }

    pub fn name(&self) -> (r: &UserName)
        ensures
            r@ == self@.name,
    {
        &self.name
    }

    pub fn email(&self) -> (r: &EmailAddress)
        ensures
            r@ == self@.email,
    {
        &self.email
    }

    pub fn age(&self) -> (r: &Age)
        ensures
            r@ == self@.age,
    {
        &self.age
    }

    pub fn country_code(&self) -> (r: u16)
        ensures
            r == self@.country_code,
    {
        self.country_code
    }

    pub fn start_time(&self) -> (r: u64)
        ensures
            r == self@.start_time,
    {
        self.start_time
    }

    pub fn end_time(&self) -> (r: u64)
        ensures
            r == self@.end_time,
    {
        self.end_time
    }

    pub fn mobile_number(&self) -> (r: &MobileNumber)
        ensures
            r@ == self@.mobile_number,
    {
        &self.mobile_number
    }

    pub fn pan(&self) -> (r: &PAN)
        ensures
            r@ == self@.pan,
    {
        &self.pan
    }

    pub fn aadhar(&self) -> (r: &Aadhar)
        ensures
            r@ == self@.aadhar,
    {
        &self.aadhar
    }
}

// ---------------------------------------------------------------- request

/// A validated booking request, with the caller's session key (a JSON Web Key) from
/// which the caller's delegated authority is derived.
#[derive(Clone, Debug, PartialEq, Eq, PartialOrd, Ord, Hash)]
pub struct CreateTransactionRequest {
    name: UserName,
    email: EmailAddress,
    age: Age,
    pan: PAN,
    aadhar: Aadhar,
    mobile_number: MobileNumber,
    country_code: u16,
    car_id: u64,
    start_time: StartTime,
    end_time: EndTime,
    principal_jwk: String,
}

/// What a booking request holds, as plain values.
pub struct RequestModel {
    pub name: Seq<char>,
    pub email: Seq<char>,
    pub age: u8,
    pub pan: Seq<char>,
    pub aadhar: Seq<char>,
    pub mobile_number: u64,
    pub country_code: u16,
    pub car_id: u64,
    pub start_time: u64,
    pub end_time: u64,
    pub principal_jwk: Seq<char>,
}

impl View for CreateTransactionRequest {
    type V = RequestModel;

    closed spec fn view(&self) -> RequestModel {
        RequestModel {
            name: self.name@,
            email: self.email@,
            age: self.age@,
            pan: self.pan@,
            aadhar: self.aadhar@,
            mobile_number: self.mobile_number@,
            country_code: self.country_code,
            car_id: self.car_id,
            start_time: self.start_time@,
            end_time: self.end_time@,
            principal_jwk: self.principal_jwk@,
        }
    }
}

/// The ledger's customer record for a request: numbers written in decimal.
pub open spec fn customer_of(m: RequestModel, c: Customer) -> bool {
    &&& c.name@ == m.name
    &&& c.email@ == m.email
    &&& c.age == m.age
    &&& c.country_code@ == decimal_of(m.country_code as nat)
    &&& c.mobile_number@ == decimal_of(m.mobile_number as nat)
    &&& c.pan@ == m.pan
    &&& c.aadhar@ == m.aadhar
}

impl CreateTransactionRequest {
    pub fn new(
        name: UserName,
        email: EmailAddress,
        age: Age,
        pan: PAN,
        aadhar: Aadhar,
        mobile_number: MobileNumber,
        country_code: u16,
        car_id: u64,
        start_time: StartTime,
        end_time: EndTime,
        principal_jwk: String,
    ) -> (r: Self)
        ensures
            r@ == (RequestModel {
                name: name@,
                email: email@,
                age: age@,
                pan: pan@,
                aadhar: aadhar@,
                mobile_number: mobile_number@,
                country_code,
                car_id,
                start_time: start_time@,
                end_time: end_time@,
                principal_jwk: principal_jwk@,
            }),
    {
        CreateTransactionRequest {
            name,
            email,
            age,
            pan,
            aadhar,
            mobile_number,
            country_code,
            car_id,
            start_time,
            end_time,
            principal_jwk,
        }
    }

    pub fn name(&self) -> (r: &UserName)
        ensures
            r@ == self@.name,
    {
        &self.name
    }

    pub fn email(&self) -> (r: &EmailAddress)
        ensures
            r@ == self@.email,
    {
        &self.email
    }

    pub fn age(&self) -> (r: &Age)
        ensures
            r@ == self@.age,
    {
        &self.age
    }

    pub fn pan(&self) -> (r: &PAN)
        ensures
            r@ == self@.pan,
    {
        &self.pan
    }

    pub fn aadhar(&self) -> (r: &Aadhar)
        ensures
            r@ == self@.aadhar,
    {
        &self.aadhar
    }

    pub fn mobile_number(&self) -> (r: &MobileNumber)
        ensures
            r@ == self@.mobile_number,
    {
        &self.mobile_number
    }

    pub fn country_code(&self) -> (r: u16)
        ensures
            r == self@.country_code,
    {
        self.country_code
    }

    pub fn car_id(&self) -> (r: u64)
        ensures
            r == self@.car_id,
    {
        self.car_id
    }

    pub fn start_time(&self) -> (r: u64)
        ensures
            r == self@.start_time,
    {
        self.start_time.value()
    }

    pub fn end_time(&self) -> (r: u64)
        ensures
            r == self@.end_time,
    {
        self.end_time.value()
    }

    /// The caller's session key, as the JSON Web Key it arrived in.
    pub fn principal_jwk(&self) -> (r: &str)
        ensures
            r@ == self@.principal_jwk,
    {
        self.principal_jwk.as_str()
    }

    /// The caller's session secret key: `None` where the JSON Web Key does not decode.
    pub fn secret(&self) -> (r: Option<Vec<u8>>)
        ensures
            r matches Some(k) ==> jwk_secret(self@.principal_jwk) == Some(k@),
            r is None <==> jwk_secret(self@.principal_jwk) is None,
    {
        secret_from_jwk(self.principal_jwk.as_str())
    }

    /// The customer record that the ledger is sent with an availability check.
    pub fn customer(&self) -> (r: Customer)
        ensures
            customer_of(self@, r),
    {
        Customer {
            age: self.age.value(),
            pan: self.pan.0.clone(),
            mobile_number: decimal_string(self.mobile_number.value()),
            name: self.name.0.clone(),
            email: self.email.0.clone(),
            country_code: decimal_string(self.country_code as u64),
            aadhar: self.aadhar.0.clone(),
        }
    }
}

// ---------------------------------------------------------------- errors

/// Why a booking could not be quoted or committed.
#[derive(Clone, Debug)]
pub enum CreateTransactionError {
    InvalidAge(AgeError),
    InvalidPAN(PANError),
    InvalidAadhar(AadharError),
    UserNameEmpty(UserNameEmptyError),
    InvalidEmail(EmailAddressError),
    InvalidMobile(MobileNumberError),
    StartTimeError,
    EndTimeError,
    TransactionExists { transaction_id: String },
    InsufficientFunds,
    /// The session key or its delegation chain is malformed, forged or expired.
    InvalidDelegation(DelegationError),
    /// The ledger or the payment gateway could not be reached.
    CanisterCommunicationError(String),
    /// The ledger refused the request (car unavailable, overlapping window, ...).
    CanisterRejectedError(String),
    Unknown(String),
}

// ---------------------------------------------------------------- laws

/// A value object's text form builds the same value object again: whatever a
/// constructor accepts, it accepts once more, unchanged, when handed its own result.
pub proof fn lemma_value_objects_round_trip(raw: Seq<char>)
    ensures
        user_name_of(raw) matches Some(v) ==> user_name_of(v) == Some(v),
        email_of(raw) matches Some(v) ==> email_of(v) == Some(v),
        pan_of(raw) matches Some(v) ==> pan_of(v) == Some(v),
        aadhar_of(raw) matches Some(v) ==> aadhar_of(v) == Some(v),
{
    lemma_trimmed_idempotent(raw);
}

} // verus!
