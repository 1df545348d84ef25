//! Admission control and credit accounting for a gym class booking service.
//!
//! The rules that decide whether a booking may be created or cancelled are
//! stated over a ledger of persons, sessions and bookings ([`rules`]). The
//! booking protocol ([`flow`]) says what to ask of a backend next; played
//! against the in-memory backend ([`store`]) it ends every request as the
//! rules say, and [`laws`] proves what follows for capacity, uniqueness,
//! credits, the weekly quota and authorization.
pub mod backup;
pub mod bookings;
pub mod calendar;
pub mod claims;
pub mod config;
pub mod error;
pub mod flow;
pub mod laws;
pub mod ledger;
pub mod listing;
pub mod login;
pub mod order;
pub mod rules;
pub mod sessions;
pub mod store;
pub mod text;
