//! What guests see of the restaurant.

pub mod hosting;
