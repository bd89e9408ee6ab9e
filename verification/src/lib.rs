//! Small verified records: people, user accounts, and plane figures.
//!
//! Each type is a plain struct whose methods carry full contracts: every
//! constructor says what each field is set to, every mutator says how the
//! new value relates to the old one, and every computation says exactly
//! what it returns.

pub mod geometry;
pub mod person;
pub mod user;
