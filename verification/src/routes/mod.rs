//! What each request amounts to: the engine that serves it, and the HTTP
//! status and message with which a failure is reported.

pub mod admin_routes;
pub mod auth_routes;
pub mod game_routes;
pub mod health_route;
pub mod inventory_items_routes;
pub mod rejection;
pub mod user_routes;
