//! The records of the relational store.

pub mod deployment;
pub mod handler;
pub mod project;
pub mod route;
pub mod user;

pub use deployment::Deployment;
pub use handler::Handler;
pub use project::{Project, ProjectMessage};
pub use route::Route;
pub use user::{User, UserMessage};
