//! Account-state transition logic of a two-party conditional escrow.
//!
//! Two participants deposit into a shared custody balance held at a
//! program-derived address; an authorised resolver later releases it to the
//! declared winner. The library decodes instructions, validates the supplied
//! accounts, updates the fixed-size escrow record and plans the transfers that
//! the host is asked to carry out.

pub mod bytes;
pub mod error;
pub mod instruction;
pub mod address;
pub mod state;
pub mod system;
pub mod authority;
pub mod rent;
pub mod account;
pub mod processor;
pub mod laws;
