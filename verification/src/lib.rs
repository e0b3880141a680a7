//! A ticketing backend: events, users and tickets kept in durable tables,
//! with the lists that tie them together kept in step.
pub mod codec;
pub mod laws;
pub mod layout;
pub mod links;
pub mod listings;
pub mod model;
pub mod records;
pub mod service;
pub mod storage;
pub mod store;
pub mod text;
pub mod tickets;
