//! Handler records: one named request-handling rule of a deployment.

use crate::ident::fresh_id;
use crate::json::{JsonKind, JsonValue, JsonValueView};
use crate::project_format::json_option_view;
use crate::project_format::Handler as HandlerFormat;
use crate::project_format::HandlerFormatView;
use vstd::prelude::*;

verus! {

/// A stored handler. A list that is present is not empty, and a body that is
/// present is an object.
#[derive(Clone, Debug, PartialEq, Eq)]
pub struct Handler {
    pub id: u128,
    pub deployment_id: u128,
    pub name: String,
    pub query_parameters: Option<Vec<String>>,
    pub headers: Option<Vec<String>>,
    pub path_parameters: Option<Vec<String>>,
    pub body: Option<JsonValue>,
    pub logic: JsonValue,
}

/// The mathematical content of a stored [`Handler`].
pub struct HandlerView {
    pub id: u128,
    pub deployment_id: u128,
    pub name: Seq<char>,
    pub query_parameters: Option<Seq<Seq<char>>>,
    pub headers: Option<Seq<Seq<char>>>,
    pub path_parameters: Option<Seq<Seq<char>>>,
    pub body: Option<JsonValueView>,
    pub logic: JsonValueView,
}

impl View for Handler {
    type V = HandlerView;

    open spec fn view(&self) -> HandlerView {
        HandlerView {
            id: self.id,
            deployment_id: self.deployment_id,
            name: self.name@,
            query_parameters: self.query_parameters.deep_view(),
            headers: self.headers.deep_view(),
            path_parameters: self.path_parameters.deep_view(),
            body: json_option_view(self.body),
            logic: self.logic@,
        }
    }
}

/// A list as it is stored: an empty list is stored as absent.
pub open spec fn stored_list<T>(list: Option<Seq<T>>) -> Option<Seq<T>> {
    match list {
        Some(items) => if items.len() != 0 {
            Some(items)
        } else {
            None
        },
        None => None,
    }
}

/// A request-body schema as it is stored: anything but an object is stored as
/// absent.
pub open spec fn stored_body(body: Option<JsonValueView>) -> Option<JsonValueView> {
    match body {
        Some(b) => if b.kind == JsonKind::Object {
            Some(b)
        } else {
            None
        },
        None => None,
    }
}

/// The record of a submitted handler under a given identifier, owned by a
/// given deployment.
pub open spec fn handler_row(handler: HandlerFormatView, id: u128, deployment_id: u128)
    -> HandlerView {
    HandlerView {
        id,
        deployment_id,
        name: handler.name,
        query_parameters: stored_list(handler.query_parameters),
        headers: stored_list(handler.headers),
        path_parameters: stored_list(handler.path_parameters),
        body: stored_body(handler.body),
        logic: handler.logic,
    }
}

/// Whether a handler record is in stored form.
pub open spec fn handler_is_normal(handler: HandlerView) -> bool {
    &&& handler.query_parameters matches Some(l) ==> l.len() != 0
    &&& handler.headers matches Some(l) ==> l.len() != 0
    &&& handler.path_parameters matches Some(l) ==> l.len() != 0
    &&& handler.body matches Some(b) ==> b.kind == JsonKind::Object
}

/// A list of names as it is stored: `None` for an absent or empty list.
fn array_is_empty(arr: Option<Vec<String>>) -> (stored: Option<Vec<String>>)
    ensures
        stored.deep_view() == stored_list(arr.deep_view()),
{
    match arr {
        Some(items) => {
            if items.len() != 0 {
                Some(items)
            } else {
                None
            }
        },
        None => None,
    }
}

impl Handler {
    /// The record of a submitted handler under the given identifier.
    pub fn with_id(id: u128, handler: HandlerFormat, deployment_id: u128) -> (row: Handler)
        ensures
            row@ == handler_row(handler@, id, deployment_id),
            handler_is_normal(row@),
    {
        let query_parameters = array_is_empty(handler.query_parameters);
        let headers = array_is_empty(handler.headers);
        let path_parameters = array_is_empty(handler.path_parameters);
        let body = match handler.body {
            Some(b) => {
                if b.is_object() {
                    Some(b)
                } else {
                    None
                }
            },
            None => None,
        };
        Handler {
            id,
            deployment_id,
            name: handler.name,
            query_parameters,
            headers,
            path_parameters,
            body,
            logic: handler.logic,
        }
    }

    /// The record of a submitted handler under a fresh identifier.
    pub fn create(handler: HandlerFormat, deployment_id: u128) -> (row: Handler)
        ensures
            row@ == handler_row(handler@, row.id, deployment_id),
            handler_is_normal(row@),
    {
        Handler::with_id(fresh_id(), handler, deployment_id)
    }
}

} // verus!
