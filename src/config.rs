//! Settings of the service and its outbound adapters, and the rules that read them.
use vstd::prelude::*;

use crate::text::{parse_decimal, parsed_decimal};

verus! {

/// The port the server listens on when none, or no valid one, is configured.
pub const DEFAULT_SERVER_PORT: u16 = 50051;

/// The service's settings, as read from its environment.
#[derive(Debug, Clone, PartialEq, Eq)]
pub struct Config {
    pub server_port: String,
    pub live_or_local: String,
    pub email_config: EmailConfig,
    pub admin_private_key: String,
    pub razorpay_key: String,
    pub razorpay_secret: String,
}

/// Credentials of the mail account that sends booking confirmations.
#[derive(Debug, Clone, PartialEq, Eq)]
pub struct EmailConfig {
    pub client_id: String,
    pub client_secret: String,
    pub access_token: String,
    pub refresh_token: String,
    /// When the access token expires, in seconds since the Unix epoch.
    pub token_expiry: u64,
}

impl EmailConfig {
    /// Whether the access token has expired at `now` (seconds since the Unix epoch).
    pub fn is_token_expired_at(&self, now: u64) -> (r: bool)
        ensures
            r == (now >= self.token_expiry),
    {
        now >= self.token_expiry
    }

    /// Takes a new access token that is valid for `expires_in` seconds from `now`
    /// (the sum saturating); the other credentials stay.
    pub fn refresh(&mut self, access_token: String, expires_in: u64, now: u64)
        ensures
            final(self).access_token == access_token,
            final(self).token_expiry == (if now + expires_in > u64::MAX {
                u64::MAX as int
            } else {
                now + expires_in
            }),
            final(self).client_id == old(self).client_id,
            final(self).client_secret == old(self).client_secret,
            final(self).refresh_token == old(self).refresh_token,
    {
        self.access_token = access_token;
        self.token_expiry = now.saturating_add(expires_in);
    }
}

/// Credentials of the payment gateway.
#[derive(Debug, Clone)]
pub struct PaymentConfig {
    pub payment_key: String,
    pub payment_secret: String,
}

/// The payment gateway adapter's settings.
#[derive(Debug, Clone)]
pub struct PaymentClient {
    pub config: PaymentConfig,
}

impl PaymentClient {
    pub fn new(config: PaymentConfig) -> (r: Self)
        ensures
            r.config == config,
    {
        PaymentClient { config }
    }
}

/// The metrics adapter.
#[derive(Debug, Clone)]
pub struct Prometheus;

impl Prometheus {
    pub fn new() -> Self {
        Prometheus
    }
}

/// Configuration for the HTTP server.
#[derive(Debug, Clone, PartialEq, Eq)]
pub struct HttpServerConfig<'a> {
    pub port: &'a str,
}

impl<'a> HttpServerConfig<'a> {
    /// The configured port, or the default where the text is no port number.
    pub fn port_number(&self) -> (r: u16)
        ensures
            parsed_decimal(self.port@, 65535) matches Some(p) ==> r == p,
            parsed_decimal(self.port@, 65535) is None ==> r == DEFAULT_SERVER_PORT,
    {
        match parse_decimal(self.port, 65535) {
            Some(p) => p as u16,
            None => DEFAULT_SERVER_PORT,
        }
    }
}

} // verus!
