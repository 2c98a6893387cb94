//! A self-hosted package registry core: a catalog of packages and versions,
//! a blob store for archive bytes, and the publish/download/search pipelines
//! that keep the two stores consistent.

pub mod auth;
pub mod blob;
pub mod catalog;
pub mod checksum;
pub mod config;
pub mod error;
pub mod laws;
pub mod metrics;
pub mod models;
pub mod organization;
pub mod registry;
pub mod response;
pub mod search;
pub mod strutil;
pub mod user;
