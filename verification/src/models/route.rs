//! Route records: one path-to-handler binding of a deployment.

use crate::ident::fresh_id;
use crate::project_format::Route as RouteFormat;
use crate::project_format::RouteFormatView;
use vstd::prelude::*;

verus! {

/// A stored route. It names its handler; nothing here resolves the name.
#[derive(Clone, Debug, PartialEq, Eq)]
pub struct Route {
    pub id: u128,
    pub deployment_id: u128,
    pub path: String,
    pub methods: Vec<String>,
    pub handler: String,
}

/// The mathematical content of a stored [`Route`].
pub struct RouteView {
    pub id: u128,
    pub deployment_id: u128,
    pub path: Seq<char>,
    pub methods: Seq<Seq<char>>,
    pub handler: Seq<char>,
}

impl View for Route {
    type V = RouteView;

    open spec fn view(&self) -> RouteView {
        RouteView {
            id: self.id,
            deployment_id: self.deployment_id,
            path: self.path@,
            methods: self.methods.deep_view(),
            handler: self.handler@,
        }
    }
}

/// The record of a submitted route under a given identifier, owned by a
/// given deployment.
pub open spec fn route_row(route: RouteFormatView, id: u128, deployment_id: u128) -> RouteView {
    RouteView {
        id,
        deployment_id,
        path: route.path,
        methods: route.methods,
        handler: route.handler,
    }
}

impl Route {
    /// The record of a submitted route under the given identifier.
    pub fn with_id(id: u128, route: RouteFormat, deployment_id: u128) -> (row: Route)
        ensures
            row@ == route_row(route@, id, deployment_id),
    {
        Route {
            id,
            deployment_id,
            path: route.path,
            methods: route.methods,
            handler: route.handler,
        }
    }

    /// The record of a submitted route under a fresh identifier.
    pub fn create(route: RouteFormat, deployment_id: u128) -> (row: Route)
        ensures
            row@ == route_row(route@, row.id, deployment_id),
    {
        Route::with_id(fresh_id(), route, deployment_id)
    }
}

} // verus!
