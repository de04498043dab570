//! Request handling for a voting, greeting and route-guide gRPC service,
//! with the client-side request builders, as verified functions on plain
//! message values.

pub mod messages;
pub mod geometry;
pub mod voting;
pub mod route_guide;
pub mod route_chat;
pub mod greet;
pub mod client;
pub mod features_db;
pub mod random;
