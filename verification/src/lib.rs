//! Verified core of a ticketing program: protocol governance, events, ticket
//! inventory, primary and secondary sales, check-in, refunds, financing,
//! revenue settlement, loyalty, trust signals, roles and vault accounting.
//!
//! Every instruction is written here as a pure state transition: it takes the
//! accounts it reads or writes as plain values, the signer keys and the
//! current time, and either updates the accounts and reports the lamport
//! movements to perform, or refuses with a `TicketingError` and leaves every
//! account unchanged.

pub mod key;
pub mod error;
pub mod math;
pub mod constants;
pub mod state;
pub mod pda;
pub mod correlation;
pub mod settlement;
pub mod primary_sale;
pub mod resale;
pub mod roles;
pub mod treasury;
pub mod financing;
pub mod text;
pub mod loyalty;
pub mod checkin;
pub mod compliance;
pub mod disputes;
pub mod ticket_state;
pub mod trust_signal;
pub mod event;
pub mod ticket_class;
pub mod protocol;
pub mod governance;
pub mod organizer;
pub mod migrations;
