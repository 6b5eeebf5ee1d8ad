//! On-ledger governance: a proposal registry with a vote ledger and a
//! lifecycle state machine, plus a secondary company-registry record store
//! and the read-only query adapters that expose selected fields of both.
//!
//! The heart of the library is [`proposals::Pallet`]: proposals are
//! submitted, discussed, voted on, and resolved into a terminal status,
//! with every successful mutation recorded as an auditable event.

pub mod company_registry;
pub mod proposals;
pub mod rpc;
