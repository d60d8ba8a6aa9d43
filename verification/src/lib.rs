//! A local mirror of an external gaming-platform profile.
//!
//! The library holds what is decided: how a listing is paged, which bearer
//! token is accepted for what, how the platform's loosely typed replies are
//! read, and how identities, games and inventories are reconciled with the
//! store. It holds nothing that waits: an engine asks for a row or a reply,
//! is told what came of it, and decides what follows (`services::protocol`).
//! Whoever runs an engine does the asking. `repositories` keeps the tables in
//! memory, with the uniqueness constraints that a store must uphold, and the
//! engines are run against them to say, and to prove, what they amount to
//! from end to end.

pub mod json;
pub mod models;
pub mod pagination;
pub mod repositories;
pub mod routes;
pub mod services;
pub mod steam;
pub mod text;
pub mod token;
