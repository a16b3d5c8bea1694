//! The decisions of a small vehicle registry service: which statement each
//! request puts to the store, and which response each answer of the store
//! earns.

pub mod handlers;
pub mod laws;
pub mod model;
pub mod response;
pub mod schema;
pub mod statement;
pub mod store;
pub mod text;
