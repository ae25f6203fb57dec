//! Client side of the CAS ticket-validation protocol: building the login,
//! logout and validation URLs, reading the ticket from a callback request,
//! and interpreting the validation server's XML reply.

mod text;
pub mod types;
pub mod urls;
pub mod events;
pub mod interpret;
pub mod client;
