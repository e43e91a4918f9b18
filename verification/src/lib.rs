//! Core of a presentation display server: a session authority that issues,
//! renews and revokes bearer tokens over a credential store, a bitmask
//! permission model, and a synchronization hub that broadcasts the latest
//! display state to connected viewers.

pub mod api;
pub mod auth;
pub mod extractor;
pub mod config;
pub mod content;
pub mod crypto;
pub mod hub;
pub mod permissions;
pub mod protocol;
pub mod store;
pub mod users;
