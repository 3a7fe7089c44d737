//! A session authentication gate: given the credential a request carries and
//! the path it asks for, decide whether the request goes on to its handler or
//! is sent to the login page.

pub mod decision;
pub mod identity;
pub mod policy;
pub mod gate;
pub mod middleware;
pub mod guarantees;
