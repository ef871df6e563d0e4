//! Verified core of a forum/blogging service: identifier types, an error
//! taxonomy, a pagination utility, an in-memory model of the relational
//! store with per-entity data access, route-level authorization, wire
//! types, and the `Loadable`/`Uploadable` state machine that the frontend
//! components drive.
pub mod article;
pub mod auth;
pub mod bucket;
pub mod chat;
pub mod answer;
pub mod clock;
pub mod datatypes;
pub mod error;
pub mod forum;
pub mod html;
pub mod identifiers;
pub mod loadable;
pub mod pagination;
pub mod post;
pub mod requests;
pub mod routes;
pub mod sorting;
pub mod store;
pub mod testing;
pub mod thread;
pub mod uploadable;
pub mod user;
pub mod wire;
