//! The core of a service that publishes versioned deployments of a project:
//! a deployment is a bundle of routes and handlers with an optional archive
//! of static assets.
//!
//! The core fingerprints submitted definitions and stores each only once per
//! project ([`hasher`], [`composer`]), ingests the archive of static assets
//! into the project's namespace of the blob store and marks the deployment
//! complete ([`archive`], [`paths`], [`ingestor`]), reads deployments
//! ([`reader`]) and removes them with their handlers and routes
//! ([`teardown`]).
//!
//! It reaches no store, blob store or channel itself. Every operation is a
//! state with a function from an answer to the next step ([`protocol`]); the
//! caller carries out the queries. [`store`] is a model of the relational
//! store; [`laws`] states over it what the operations achieve, and proves it.

pub mod access;
pub mod accounts;
pub mod archive;
pub mod broker;
pub mod composer;
pub mod config;
pub mod errors;
pub mod hasher;
pub mod hex;
pub mod ident;
pub mod ingestor;
pub mod json;
pub mod laws;
pub mod models;
pub mod paths;
pub mod project_format;
pub mod projects;
pub mod protocol;
pub mod reader;
pub mod store;
pub mod teardown;
pub mod text;
