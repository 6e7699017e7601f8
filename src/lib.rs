//! A typed client layer for the CouchDB HTTP API.
//!
//! Each server operation is a value that builds one HTTP request and
//! interprets one HTTP response (see [`Command`]); sending the request is left
//! to the caller. Responses map to typed outcomes or to one of a closed set of
//! errors, and document writes can be guarded by the revision the caller last
//! saw.

// Values and wire forms.
pub mod document_name;
pub mod json;
pub mod revision;

// Requests, responses and errors.
pub mod client;
pub mod error;
pub mod request;
pub mod response;

// What the server sends back.
pub mod database;
pub mod document;
pub mod view;

// The operations.
pub mod command;
pub mod delete_database;
pub mod delete_document;
pub mod get_database;
pub mod get_document;
pub mod get_view;
pub mod head_database;
pub mod head_document;
pub mod put_database;
pub mod put_document;

pub use client::ClientState;
pub use command::Command;
pub use database::Database;
pub use delete_database::DeleteDatabase;
pub use delete_document::DeleteDocument;
pub use document::Document;
pub use document_name::DocumentName;
pub use error::{Error, ErrorResponse};
pub use get_database::GetDatabase;
pub use get_document::GetDocument;
pub use get_view::GetView;
pub use head_database::HeadDatabase;
pub use head_document::HeadDocument;
pub use json::{Json, JsonNumber};
pub use put_database::PutDatabase;
pub use put_document::{new_put_document, PutDocument};
pub use request::{Method, Request};
pub use response::Response;
pub use revision::{Revision, RevisionParseError};
pub use view::{ViewResult, ViewRow};
