//! A virtual filesystem that serves several directory trees under one root,
//! each addressed by its mount name as the first path segment.
pub mod config;
pub mod dav;
pub mod davpath;
pub mod multifs;
pub mod resolve;
pub mod text;
