//! Vaccination statistics for a chat bot: which command a message holds,
//! what a country's published record says, and how the reply reads.

pub mod command;
pub mod country;
pub mod extract;
pub mod json;
pub mod message;
pub mod numeral;
pub mod stats;
