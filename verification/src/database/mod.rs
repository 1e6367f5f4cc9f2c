//! Row shapes that the database hands out and the conversions applied to them.

pub mod impls;
pub mod models;
