//! Deployment records: one versioned, fingerprinted bundle of a project.

use crate::ident::{fresh_id, now, Timestamp};
use crate::models::handler::{handler_is_normal, handler_row, Handler};
use crate::models::route::{route_row, Route};
use crate::project_format::Handler as HandlerFormat;
use crate::project_format::Route as RouteFormat;
use vstd::prelude::*;

verus! {

/// A stored deployment. `has_static` is its completion flag.
#[derive(Clone, Debug, PartialEq, Eq)]
pub struct Deployment {
    pub id: u128,
    pub project_id: u128,
    pub version: String,
    pub hash: String,
    pub has_static: bool,
    pub published_at: Timestamp,
}

/// The mathematical content of a stored [`Deployment`].
pub struct DeploymentView {
    pub id: u128,
    pub project_id: u128,
    pub version: Seq<char>,
    pub hash: Seq<char>,
    pub has_static: bool,
    pub published_at: Timestamp,
}

impl View for Deployment {
    type V = DeploymentView;

    open spec fn view(&self) -> DeploymentView {
        DeploymentView {
            id: self.id,
            project_id: self.project_id,
            version: self.version@,
            hash: self.hash@,
            has_static: self.has_static,
            published_at: self.published_at,
        }
    }
}

/// A deployment record as it is first stored: its completion flag is false.
pub open spec fn deployment_row(
    id: u128,
    version: Seq<char>,
    hash: Seq<char>,
    project_id: u128,
    published_at: Timestamp,
) -> DeploymentView {
    DeploymentView { id, project_id, version, hash, has_static: false, published_at }
}

/// A deployment record with its completion flag set.
pub open spec fn completed(deployment: DeploymentView) -> DeploymentView {
    DeploymentView { has_static: true, ..deployment }
}

impl Deployment {
    /// The record of a new deployment under the given identifier, published
    /// at the given time. Its assets are not yet ingested.
    pub fn with_id(
        id: u128,
        version: String,
        hash: String,
        project_id: u128,
        published_at: Timestamp,
    ) -> (row: Deployment)
        ensures
            row@ == deployment_row(id, version@, hash@, project_id, published_at),
    {
        Deployment { id, project_id, version, hash, has_static: false, published_at }
    }

    /// The record of a new deployment under a fresh identifier, published
    /// now.
    pub fn create(version: String, hash: String, project_id: u128) -> (row: Deployment)
        ensures
            row@ == deployment_row(row.id, version@, hash@, project_id, row.published_at),
    {
        Deployment::with_id(fresh_id(), version, hash, project_id, now())
    }

    /// Sets the completion flag. Setting it on a completed deployment changes
    /// nothing, and nothing ever clears it.
    pub fn mark_has_static(&mut self)
        ensures
            final(self)@ == completed(old(self)@),
    {
        self.has_static = true;
    }

    /// The record of a submitted handler as a handler of this deployment.
    pub fn add_handler(&self, handler: HandlerFormat) -> (row: Handler)
        ensures
            row@ == handler_row(handler@, row.id, self.id),
            handler_is_normal(row@),
    {
        Handler::create(handler, self.id)
    }

    /// The record of a submitted route as a route of this deployment.
    pub fn add_route(&self, route: RouteFormat) -> (row: Route)
        ensures
            row@ == route_row(route@, row.id, self.id),
    {
        Route::create(route, self.id)
    }
}

} // verus!
