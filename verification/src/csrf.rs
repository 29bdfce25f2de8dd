//! Protection of state-changing requests against cross-site request
//! forgery.

pub mod middleware;
