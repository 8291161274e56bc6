//! A URL shortener's core: slugs, the mappings that a store keeps for them,
//! and the two conversations that a request has with that store.
//!
//! The store itself is not here. A request is a small state machine
//! ([`create::Allocation`], [`redirect::Resolution`]): it names the one query
//! it wants answered, takes the store's reply, and moves on, until it holds
//! an outcome. The module [`store`] says what an honest store answers.
//! [`laws`] proves what holds of one request whatever it is told, and
//! [`world_laws`] what holds of many requests that share a store, however
//! they interleave.

pub mod create;
pub mod error;
pub mod laws;
pub mod models;
pub mod redirect;
pub mod request;
pub mod slug;
pub mod store;
pub mod world;
pub mod world_laws;
