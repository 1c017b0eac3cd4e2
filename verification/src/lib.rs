//! A small status service library: a dual-stack connection acceptor model,
//! a service-status aggregator, configuration decoding, and the IP-echo rule.

pub mod acceptor;
pub mod config;
pub mod ip;
pub mod status;
