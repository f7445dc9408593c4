//! Verified core of a mock "now playing" music dashboard.
//!
//! The one piece of state with any shape is the recommendation workflow:
//! a form captures a song title, a page-level handler turns it into a song
//! record and appends it to the recommendation store, and a list view
//! renders the store's current snapshot. This crate models that workflow
//! as plain data and verified functions; the host UI runtime (DOM, events,
//! styling) lives outside and drives these functions at its edges.

pub mod form;
pub mod laws;
pub mod mock;
pub mod page;
pub mod render;
pub mod song;
pub mod store;
pub mod text;
