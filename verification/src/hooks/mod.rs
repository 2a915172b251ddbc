//! What the agent reports: the host it sends to, and the messages built from
//! the game's objects.
pub mod demand3;
pub mod host;
pub mod residence_consumption;
pub mod trade_contracts;
pub mod trade_routes;
