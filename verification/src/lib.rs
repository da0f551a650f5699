//! Dynamic-DNS reconciliation: decide which address records of a DNS provider
//! must be rewritten so that they carry the host's current public address.

pub mod config;
pub mod headers;
pub mod reconciler;
pub mod record;
pub mod report;
pub mod request;
