//! The decisions of a small notes service, kept apart from its input and
//! output.
//!
//! The service offers create, read, update and delete over one resource, the
//! note, which it keeps in a table of a relational database. This library
//! holds everything that the service decides and nothing that it does: a
//! handler is asked what to do next, says which statement to send to the
//! datastore or which response to give, and is asked again with the
//! datastore's answer. A program around the library sends the statements and
//! writes the responses out.
//!
//! - [`model`] and [`schema`]: the note, stored and shown, and what clients
//!   send.
//! - [`datastore`] and [`response`]: what the datastore answers and what the
//!   service answers.
//! - [`handler`]: one handler for each operation.
//! - [`route`] and [`startup`]: the route table, the cross-origin policy and
//!   the start of the process.
//! - [`table`] and [`laws`]: a model of the table, and what holds of whole
//!   requests on it.
//! - [`ident`] and [`text`]: identifiers for new notes, and searching a text.

pub mod datastore;
pub mod handler;
pub mod ident;
pub mod laws;
pub mod model;
pub mod response;
pub mod route;
pub mod schema;
pub mod startup;
pub mod table;
pub mod text;
