//! Domain logic of the wishlist backend: the stored records and how they are
//! read from BSON documents, the decisions that the HTTP handlers take between
//! database round trips, and the replies that the service sends for errors.

pub mod document;
pub mod error;
pub mod handler;
pub mod model;
pub mod newest;
pub mod object_key;
pub mod query;
pub mod reject;
pub mod sources;

pub use error::Error;
