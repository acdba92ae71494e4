//! Records exchanged with the remote ledger service, which stores bookings and
//! enforces that a car is reserved by one booking at a time.
use vstd::prelude::*;

verus! {

/// The customer fields that the ledger stores with a booking, as text.
#[derive(Clone, Debug, PartialEq, Eq)]
pub struct Customer {
    pub name: String,
    pub email: String,
    pub age: u8,
    pub country_code: String,
    pub mobile_number: String,
    pub pan: String,
    pub aadhar: String,
}

/// What the ledger answers to an availability check or a reservation.
#[derive(Clone, Debug, PartialEq, Eq)]
pub struct LedgerRecord {
    pub booking_id: u64,
    pub car_id: u64,
    pub customer: Option<Customer>,
    pub start_timestamp: u64,
    pub end_timestamp: u64,
    /// Quoted total in minor currency units (paise).
    pub total_amount: u64,
}

/// Proof of payment handed over by the payment gateway's confirmation.
#[derive(Clone, Debug, PartialEq, Eq)]
pub struct PaymentProof {
    pub payment_id: String,
    pub payment_link_id: String,
    pub reference_id: String,
    pub status: String,
    pub signature: String,
}

/// Why a call to the ledger failed.
#[derive(Clone, Debug, PartialEq, Eq)]
pub enum RemoteError {
    /// The ledger answered and refused (car unavailable, overlapping window, ...).
    Rejected(String),
    /// The ledger could not be reached or its answer could not be read.
    Transport(String),
}

/// What an availability check asks, as plain values.
pub struct AvailabilityModel {
    pub car_id: u64,
    pub start: u64,
    pub end: u64,
    pub customer: Customer,
}

/// The availability check of a car over a window, for a customer. Only a caller's handle
/// (`Canisters<UserSession>`) makes one.
#[derive(Clone, Debug, PartialEq, Eq)]
pub struct AvailabilityCall {
    car_id: u64,
    start: u64,
    end: u64,
    customer: Customer,
}

impl View for AvailabilityCall {
    type V = AvailabilityModel;

    closed spec fn view(&self) -> AvailabilityModel {
        AvailabilityModel {
            car_id: self.car_id,
            start: self.start,
            end: self.end,
            customer: self.customer,
        }
    }
}

impl AvailabilityCall {
    pub(crate) fn new(car_id: u64, start: u64, end: u64, customer: Customer) -> (r: Self)
        ensures
            r@ == (AvailabilityModel { car_id, start, end, customer }),
    {
        AvailabilityCall { car_id, start, end, customer }
    }

    pub fn car_id(&self) -> (r: u64)
        ensures
            r == self@.car_id,
    {
        self.car_id
    }

    pub fn start(&self) -> (r: u64)
        ensures
            r == self@.start,
    {
        self.start
    }

    pub fn end(&self) -> (r: u64)
        ensures
            r == self@.end,
    {
        self.end
    }

    pub fn customer(&self) -> (r: &Customer)
        ensures
            *r == self@.customer,
    {
        &self.customer
    }
}

/// What a reservation asks, as plain values.
pub struct ReserveModel {
    pub booking_id: u64,
    pub payment: PaymentProof,
}

/// The commit of a paid booking. Only the service's own handle
/// (`Canisters<AdminSession>`) makes one.
#[derive(Clone, Debug, PartialEq, Eq)]
pub struct ReserveCall {
    booking_id: u64,
    payment: PaymentProof,
}

impl View for ReserveCall {
    type V = ReserveModel;

    closed spec fn view(&self) -> ReserveModel {
        ReserveModel { booking_id: self.booking_id, payment: self.payment }
    }
}

impl ReserveCall {
    pub(crate) fn new(booking_id: u64, payment: PaymentProof) -> (r: Self)
        ensures
            r@ == (ReserveModel { booking_id, payment }),
    {
        ReserveCall { booking_id, payment }
    }

    pub fn booking_id(&self) -> (r: u64)
        ensures
            r == self@.booking_id,
    {
        self.booking_id
    }

    pub fn payment(&self) -> (r: &PaymentProof)
        ensures
            *r == self@.payment,
    {
        &self.payment
    }
}

} // verus!
