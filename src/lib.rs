//! An in-memory store of news items, posts and users, with the request
//! handlers of a small record service on top of it.
//!
//! - `entity`: the three kinds of record and their models.
//! - `store`: one collection with unique keys, and its operations.
//! - `news`, `posts`, `users`: the requests on each collection.
//! - `service`: the three collections as one service, with its starting records.
//! - `laws`: what holds across several operations.
//!
//! A post names its author by key, and that key is not checked against the
//! users: creating a post for an unknown user, or deleting a user who has
//! posts, is allowed and changes no other collection.

pub mod entity;
pub mod error;
pub mod laws;
pub mod news;
pub mod posts;
pub mod service;
pub mod store;
pub mod users;
