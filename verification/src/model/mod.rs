//! The records that the service answers with, one module for each family.

pub mod address;
pub mod counts;
pub mod history;
pub mod token;
