//! Transactional persistence and identity rules for a conversation record store.
//!
//! The library decides; a driver outside it talks to the database. Every
//! decision that the driver acts on (what to validate, which identifier a
//! session gets, which statements run in which order, what error each failure
//! reports) is made and proved here.

pub mod clock;
pub mod coordinator;
pub mod identity;
pub mod paths;
pub mod protocol;
pub mod session;
pub mod store;
pub mod text;
pub mod validation;
