//! A deployment definition as it is submitted: a name, a version label, a hint
//! for the static directory, and the routes and handlers in the order given.

use crate::json::{JsonValue, JsonValueView};
use vstd::prelude::*;

verus! {

/// A submitted deployment definition.
#[derive(Clone, Debug, PartialEq, Eq)]
pub struct ProjectFormat {
    pub name: String,
    pub version: String,
    pub static_directory: String,
    pub routes: Vec<Route>,
    pub handlers: Vec<Handler>,
}

/// A submitted route: a path pattern, the methods it accepts, and the name of
/// the handler that serves it.
#[derive(Clone, Debug, PartialEq, Eq)]
pub struct Route {
    pub path: String,
    pub methods: Vec<String>,
    pub handler: String,
}

/// A submitted handler.
#[derive(Clone, Debug, PartialEq, Eq)]
pub struct Handler {
    pub name: String,
    pub query_parameters: Option<Vec<String>>,
    pub headers: Option<Vec<String>>,
    pub path_parameters: Option<Vec<String>>,
    pub body: Option<JsonValue>,
    pub logic: JsonValue,
}

/// The mathematical content of a submitted [`Route`].
pub struct RouteFormatView {
    pub path: Seq<char>,
    pub methods: Seq<Seq<char>>,
    pub handler: Seq<char>,
}

/// The mathematical content of a submitted [`Handler`].
pub struct HandlerFormatView {
    pub name: Seq<char>,
    pub query_parameters: Option<Seq<Seq<char>>>,
    pub headers: Option<Seq<Seq<char>>>,
    pub path_parameters: Option<Seq<Seq<char>>>,
    pub body: Option<JsonValueView>,
    pub logic: JsonValueView,
}

/// The mathematical content of an optional structured value.
pub open spec fn json_option_view(value: Option<JsonValue>) -> Option<JsonValueView> {
    match value {
        Some(v) => Some(v@),
        None => None,
    }
}

impl View for Route {
    type V = RouteFormatView;

    open spec fn view(&self) -> RouteFormatView {
        RouteFormatView {
            path: self.path@,
            methods: self.methods.deep_view(),
            handler: self.handler@,
        }
    }
}

impl View for Handler {
    type V = HandlerFormatView;

    open spec fn view(&self) -> HandlerFormatView {
        HandlerFormatView {
            name: self.name@,
            query_parameters: self.query_parameters.deep_view(),
            headers: self.headers.deep_view(),
            path_parameters: self.path_parameters.deep_view(),
            body: json_option_view(self.body),
            logic: self.logic@,
        }
    }
}

} // verus!
