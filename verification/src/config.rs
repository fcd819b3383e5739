//! The immutable process configuration and its validation.
//!
//! A configuration is accepted exactly when the SMTP endpoint is non-empty,
//! both addresses have valid mailbox syntax, the trigger interval is at least
//! 2 seconds (the random delay is drawn from the half-open range
//! `[1, interval)`, which must not be empty) and the message pool holds at
//! least one body.

use vstd::prelude::*;

verus! {

// Whether the characters of `s` form a valid mailbox address, as lettre's
// address grammar defines it.
pub uninterp spec fn mailbox_ok(s: Seq<char>) -> bool;

/// Relies on lettre's `Mailbox::from_str`: whether the parse succeeds depends
/// on the characters of the input alone.
#[verifier::external_body]
fn parse_mailbox(s: &String) -> (r: bool)
    ensures
        r == mailbox_ok(s@),
{
    s.parse::<lettre::message::Mailbox>().is_ok()
}

/// Settings loaded once at startup and read-only for the process lifetime.
#[derive(Debug)]
pub struct Config {
    pub smtp_server: String,
    pub from: String,
    pub to: String,
    pub subject: String,
    /// Exclusive upper bound, in seconds, on the random delay before each send.
    pub interval: u64,
    /// The pool of message bodies; one is drawn at random per send.
    pub messages: Vec<String>,
}

/// Why a configuration was rejected.
#[derive(Clone, Copy, Debug, PartialEq, Eq, Structural)]
pub enum ConfigError {
    EmptySmtpServer,
    InvalidFromAddress,
    InvalidToAddress,
    IntervalTooSmall,
    NoMessages,
}

/// The invariants a configuration must satisfy before the loop may start.
pub open spec fn config_ok(c: Config) -> bool {
    &&& c.smtp_server@.len() > 0
    &&& mailbox_ok(c.from@)
    &&& mailbox_ok(c.to@)
    &&& c.interval >= 2
    &&& c.messages@.len() > 0
}

/// The verdict validation must reach: the first violated invariant in field
/// order, or acceptance when every invariant holds.
pub open spec fn validation_verdict(c: Config) -> Result<(), ConfigError> {
    if c.smtp_server@.len() == 0 {
        Err(ConfigError::EmptySmtpServer)
    } else if !mailbox_ok(c.from@) {
        Err(ConfigError::InvalidFromAddress)
    } else if !mailbox_ok(c.to@) {
        Err(ConfigError::InvalidToAddress)
    } else if c.interval < 2 {
        Err(ConfigError::IntervalTooSmall)
    } else if c.messages@.len() == 0 {
        Err(ConfigError::NoMessages)
    } else {
        Ok(())
    }
}

impl Config {
    /// Checks every configuration invariant, reporting the first violation in
    /// field order; succeeds exactly on configurations that satisfy them all.
    pub fn validate(&self) -> (r: Result<(), ConfigError>)
        ensures
            r is Ok <==> config_ok(*self),
            r == validation_verdict(*self),
    {
        if self.smtp_server.as_str().unicode_len() == 0 {
            Err(ConfigError::EmptySmtpServer)
        } else if !parse_mailbox(&self.from) {
            Err(ConfigError::InvalidFromAddress)
        } else if !parse_mailbox(&self.to) {
            Err(ConfigError::InvalidToAddress)
        } else if self.interval < 2 {
            Err(ConfigError::IntervalTooSmall)
        } else if self.messages.len() == 0 {
            Err(ConfigError::NoMessages)
        } else {
            Ok(())
        }
    }
}

/// An interval below 2 leaves the delay range `[1, interval)` empty, so such
/// a configuration never passes validation.
pub proof fn lemma_small_interval_rejected(c: Config)
    requires
        c.interval < 2,
    ensures
        !config_ok(c),
{
}

} // verus!
