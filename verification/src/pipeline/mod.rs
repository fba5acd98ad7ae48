//! Configuration of a capture session and the protocol that brings it up and down.

pub mod builder;
pub mod capture;
pub mod model;
