//! A typed client library for the Strava fitness-tracking web API:
//! OAuth2 token lifecycle bookkeeping, token-exchange request
//! construction, response interpretation, and pagination queries.

pub mod activities;
pub mod api;
pub mod athlete;
pub mod auth;
pub mod config;
pub mod json;
pub mod numeric;
