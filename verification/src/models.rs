//! Row types and the shapes exchanged at the request boundary.

pub mod restaurant_models;
pub mod route_models;
