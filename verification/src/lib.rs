//! Login flow of a small desktop client: the request that a login sends,
//! the cell that holds the session token, and the rules by which a
//! completed request changes that cell.

pub mod api;
pub mod flow;
pub mod state;
pub mod token;
