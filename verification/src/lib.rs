//! A URL shortener's core: short tokens, target validation, and the
//! decisions of listing, resolving and creating shortened URLs against a
//! store that keeps each token unique.

pub mod token;
pub mod model;
pub mod target;
pub mod store;
pub mod service;
pub mod laws;
