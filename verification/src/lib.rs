//! Control plane of Houston Cloud, where each user has an isolated engine of their own.
//!
//! The library holds what the control plane decides: who is let in, what a tenant's objects in the
//! cluster look like, what is asked of the store, of the cluster and of engines, in which order, and
//! what follows from the replies. Work that waits for the world is a flow: a value that says what to
//! ask for next (`action`) and what follows from the reply (`resume`). Whoever runs a flow performs
//! its action, hands the reply back, and goes on until the flow is done.
//!
//! Contracts speak of views: a type with texts, such as `Tenant`, is generic in them, and its view is
//! the same type over `Seq<char>`.
#![allow(unused_imports)]

pub mod auth;
pub mod clock;
pub mod effects;
pub mod header;
pub mod hex;
pub mod idle_sweeper;
pub mod json;
pub mod k8s;
pub mod laws;
pub mod outcomes;
pub mod routes;
pub mod session;
pub mod settings;
pub mod store;
pub mod tenant;
pub mod text;
pub mod views;
