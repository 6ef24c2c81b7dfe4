//! The event catalog of the StelloPay payroll and escrow contract.
//!
//! Every event is a plain struct. Its schema names the event, lists the
//! topics it is published with and its declared fields; its data map holds
//! the field values under the field names.

pub mod catalog;
pub mod events;
pub mod schema;
pub mod soroban;
