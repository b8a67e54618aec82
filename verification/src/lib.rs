//! The data layer of a desktop client for REST and RPC requests: requests
//! are kept in named collections, every collection counts its requests, and
//! the components that show them are kept in step by events.
//!
//! - [`records`], [`codes`], [`error`]: the rows, the enumerated fields and
//!   their codes, and the failures.
//! - [`model`]: the two tables as mathematics, and the transitions on them.
//! - [`store`]: the tables in memory, with the collection repository and
//!   the request repository.
//! - [`invariants`], [`laws`], [`seq_facts`]: what the transitions keep, and
//!   what holds of the repositories as a whole.
//! - [`search`], [`ident`], [`icons`]: matching a search term, fresh ids,
//!   and icons.
//! - [`messaging`]: the event bus.
//! - [`view_model`], [`layout`]: the state of the screens, moved on by user
//!   actions and by events, and the rules of the window.
//!
//! Nothing here reads or writes a file and nothing draws: the rows are
//! handed in and out as plain values, and a toolkit reads the state.

pub mod codes;
pub mod error;
pub mod icons;
pub mod ident;
pub mod invariants;
pub mod laws;
pub mod layout;
pub mod messaging;
pub mod model;
pub mod records;
pub mod search;
pub mod seq_facts;
pub mod store;
pub mod view_model;
