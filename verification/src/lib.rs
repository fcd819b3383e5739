//! A daemon core that, at randomized intervals, picks one message body at
//! random from a fixed pool and hands an email envelope to an SMTP transport.
//! The scheduling, selection, envelope construction and outcome handling are
//! verified; reading the configuration, the credentials and the wire transport
//! live outside the library.

pub mod config;
pub mod daemon;
pub mod dispatch;
pub mod schedule;
