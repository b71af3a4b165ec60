//! A package-distribution mirror gateway: decides which upstream location
//! should serve a requested archive, using official mirrors in fixed order,
//! a self-hosted object-storage cache, and a set of third-party cache sites
//! raced for the first successful probe.

pub mod dispatcher;
pub mod dist;
pub mod metadata;
pub mod mirrors;
pub mod package;
pub mod probe;
pub mod response;
pub mod text;
pub mod whitelist;
