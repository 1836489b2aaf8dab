//! A capitalization table kept as a ledger of records: issuers, stock
//! classes, stakeholders, stock plans and the positions issued to
//! stakeholders.
//!
//! - [`state`] holds the records and the keys they are stored under.
//! - [`errors`] holds the failures a transition can report.
//! - [`events`] holds the events of the transitions and their envelope;
//!   [`wire`] lays the payload of an envelope out in bytes.
//! - [`instructions`] holds the transitions. Each works on records that the
//!   caller has loaded, changes them in place and returns its event.
//! - [`store`] holds the tables records are kept in.
//! - [`model`] describes the ledger as a state machine over the records in
//!   the order of their creation, and [`keyed`] over the records by their
//!   keys. [`ledger`] is the ledger itself.
//! - [`conservation`] and [`lifecycle`] state what holds of every state the
//!   ledger can reach and of every step it can take.

pub mod conservation;
pub mod errors;
pub mod events;
pub mod instructions;
pub mod keyed;
pub mod ledger;
pub mod lifecycle;
pub mod model;
pub mod state;
pub mod store;
pub mod wire;
