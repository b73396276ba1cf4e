//! What an operation asks of its collaborators, and what they answer.
//!
//! An operation never reaches a store, a blob store or a channel itself. It is
//! a state, and a function from a state and an answer to the next state and
//! the next step: either a query for the caller to carry out, or the outcome.

use crate::errors::{BlockingFailure, Failure, ParseFailure, StoreError};
use crate::ident::{id_text, id_to_string};
use crate::models::deployment::Deployment;
use crate::models::handler::Handler;
use crate::models::project::Project;
use crate::models::route::Route;
use vstd::prelude::*;
use vstd::string::*;

verus! {

/// The channels on which lifecycle events are broadcast.
#[derive(Clone, Copy, Debug, PartialEq, Eq, Structural)]
pub enum Channel {
    /// A deployment's assets are complete.
    Publish,
    /// A deployment was removed.
    Delete,
}

/// The name of a channel.
pub open spec fn channel_name(channel: Channel) -> Seq<char> {
    match channel {
        Channel::Publish => "publish"@,
        Channel::Delete => "delete"@,
    }
}

impl Channel {
    /// The name under which the channel is known to its subscribers.
    pub fn name(&self) -> (name: String)
        ensures
            name@ == channel_name(*self),
    {
        match self {
            Channel::Publish => String::from_str("publish"),
            Channel::Delete => String::from_str("delete"),
        }
    }
}

/// What is broadcast for a project on a channel: the channel's name, and the
/// project's identifier as the message.
pub fn publication(channel: Channel, project_id: u128) -> (out: (String, String))
    ensures
        out.0@ == channel_name(channel),
        out.1@ == id_text(project_id),
{
    (channel.name(), id_to_string(project_id))
}

/// The header of one part of a multipart upload. `name` is absent where the
/// part has no content disposition or the disposition names no field.
#[derive(Clone, Debug, PartialEq, Eq)]
pub struct Part {
    pub name: Option<String>,
    pub media_type: String,
    pub media_subtype: String,
}

/// One object to put into the blob store.
#[derive(Clone, Debug, PartialEq, Eq)]
pub struct BlobWrite {
    pub key: String,
    pub bytes: Vec<u8>,
    pub content_type: String,
}

/// A deployment with its handlers and routes, to be stored as one unit: all
/// of it or nothing.
#[derive(Clone, Debug, PartialEq, Eq)]
pub struct Bundle {
    pub deployment: Deployment,
    pub handlers: Vec<Handler>,
    pub routes: Vec<Route>,
}

/// A deployment as it is read: the record with its routes and handlers.
#[derive(Clone, Debug, PartialEq, Eq)]
pub struct ReadResponse {
    pub deployment: Deployment,
    pub routes: Vec<Route>,
    pub handlers: Vec<Handler>,
}

/// A request to a collaborator.
#[derive(Clone, Debug, PartialEq, Eq)]
pub enum Query {
    /// The project with this identifier.
    FindProject { id: u128 },
    /// All deployments of a project.
    FindDeployments { project_id: u128 },
    /// The deployment with this identifier.
    FindDeployment { id: u128 },
    /// The deployment of a project with this fingerprint, if there is one.
    FindDeploymentByHash { project_id: u128, hash: String },
    /// Store the bundle atomically.
    InsertBundle { bundle: Bundle },
    /// All routes of a deployment.
    FindRoutes { deployment_id: u128 },
    /// All handlers of a deployment.
    FindHandlers { deployment_id: u128 },
    /// Remove one handler; removing one that is gone is no error.
    DeleteHandler { id: u128 },
    /// Remove one route; removing one that is gone is no error.
    DeleteRoute { id: u128 },
    /// Remove one deployment record.
    DeleteDeployment { id: u128 },
    /// Set the completion flag of a deployment.
    MarkComplete { id: u128 },
    /// The header of the next part of the upload.
    NextPart,
    /// The next chunk of the part that was read last.
    NextChunk,
    /// Put one object into the blob store, replacing what the key held.
    PutBlob { write: BlobWrite },
    /// Broadcast the project's identifier on a channel.
    Publish { channel: Channel, project_id: u128 },
}

/// What a collaborator answered.
#[derive(Debug, PartialEq, Eq)]
pub enum Answer {
    Project(Result<Project, StoreError>),
    Deployments(Result<Vec<Deployment>, StoreError>),
    Deployment(Result<Deployment, StoreError>),
    Lookup(Result<Option<Deployment>, StoreError>),
    Inserted(Result<(), StoreError>),
    Routes(Result<Vec<Route>, StoreError>),
    Handlers(Result<Vec<Handler>, StoreError>),
    /// The number of records removed.
    Deleted(Result<usize, StoreError>),
    /// The number of records changed.
    Marked(Result<usize, StoreError>),
    /// The next part's header; `None` where the upload has no further part.
    Part(Result<Option<Part>, ParseFailure>),
    /// The next chunk; `None` where the part has ended.
    Chunk(Result<Option<Vec<u8>>, ParseFailure>),
    Stored(Result<(), BlockingFailure>),
    /// Whether a connection to the channel could be had; delivery itself is
    /// not acknowledged.
    Published(Result<(), String>),
}

/// What a successful operation returns.
#[derive(Clone, Debug, PartialEq, Eq)]
pub enum Reply {
    /// Done; there is nothing to return.
    Success,
    /// The identifier of the deployment that stands for the submission.
    Created { id: u128 },
    /// The deployments of a project.
    Deployments(Vec<Deployment>),
    /// One deployment with its routes and handlers.
    Read(ReadResponse),
}

/// What is to happen next.
#[derive(Debug, PartialEq, Eq)]
pub enum Step {
    /// Carry out the query and resume with its answer.
    Ask(Query),
    /// The operation has ended with this outcome.
    Done(Result<Reply, Failure>),
}

/// The step that ends an operation with a failure.
pub open spec fn failed(failure: Failure) -> Step {
    Step::Done(Err(failure))
}

/// The step that ends an operation with a reply.
pub open spec fn replied(reply: Reply) -> Step {
    Step::Done(Ok(reply))
}

} // verus!
