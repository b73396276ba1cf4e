//! The deployment composer: a submitted definition becomes a deployment with
//! its handlers and routes, stored as one unit, unless the project already
//! holds a deployment with the same fingerprint.

use crate::access::{check_owner, project_refusal};
use crate::errors::{DatabaseErrorKind, Failure, StoreError};
use crate::hasher::{fingerprint, generate_hash};
use crate::models::deployment::{deployment_row, Deployment};
use crate::models::handler::{handler_is_normal, handler_row, Handler};
use crate::models::route::{route_row, Route};
use crate::project_format::Handler as HandlerFormat;
use crate::project_format::ProjectFormat;
use crate::project_format::Route as RouteFormat;
use crate::protocol::{failed, replied, Answer, Bundle, Query, Reply, Step};
use vstd::prelude::*;
use vstd::utf8::encode_utf8;

verus! {

/// Whether `bundle` is what `definition` composes to under the fingerprint
/// `hash` in the project: a deployment whose assets are not yet ingested, one
/// handler record for each submitted handler and one route record for each
/// submitted route, in the order submitted, all owned by that deployment.
pub open spec fn composed(
    bundle: Bundle,
    definition: ProjectFormat,
    hash: Seq<char>,
    project_id: u128,
) -> bool {
    &&& bundle.deployment@ == deployment_row(
        bundle.deployment.id,
        definition.version@,
        hash,
        project_id,
        bundle.deployment.published_at,
    )
    &&& bundle.handlers.len() == definition.handlers.len()
    &&& forall|i: int|
        0 <= i < bundle.handlers.len() ==> (#[trigger] bundle.handlers[i])@ == handler_row(
            definition.handlers[i]@,
            bundle.handlers[i].id,
            bundle.deployment.id,
        ) && handler_is_normal(bundle.handlers[i]@)
    &&& bundle.routes.len() == definition.routes.len()
    &&& forall|i: int|
        0 <= i < bundle.routes.len() ==> (#[trigger] bundle.routes[i])@ == route_row(
            definition.routes[i]@,
            bundle.routes[i].id,
            bundle.deployment.id,
        )
}

/// The handler records of a deployment, one for each submitted handler.
fn compose_handlers(handlers: Vec<HandlerFormat>, deployment: &Deployment) -> (rows: Vec<Handler>)
    ensures
        rows.len() == handlers.len(),
        forall|i: int|
            0 <= i < rows.len() ==> (#[trigger] rows[i])@ == handler_row(
                handlers[i]@,
                rows[i].id,
                deployment.id,
            ) && handler_is_normal(rows[i]@),
{
    let mut rows: Vec<Handler> = Vec::new();
    for handler in it: handlers
        invariant
            rows.len() == it.index(),
            forall|i: int|
                0 <= i < rows.len() ==> (#[trigger] rows[i])@ == handler_row(
                    it.seq()[i]@,
                    rows[i].id,
                    deployment.id,
                ) && handler_is_normal(rows[i]@),
    {
        rows.push(deployment.add_handler(handler));
    }
    rows
}

/// The route records of a deployment, one for each submitted route.
fn compose_routes(routes: Vec<RouteFormat>, deployment: &Deployment) -> (rows: Vec<Route>)
    ensures
        rows.len() == routes.len(),
        forall|i: int|
            0 <= i < rows.len() ==> (#[trigger] rows[i])@ == route_row(
                routes[i]@,
                rows[i].id,
                deployment.id,
            ),
{
    let mut rows: Vec<Route> = Vec::new();
    for route in it: routes
        invariant
            rows.len() == it.index(),
            forall|i: int|
                0 <= i < rows.len() ==> (#[trigger] rows[i])@ == route_row(
                    it.seq()[i]@,
                    rows[i].id,
                    deployment.id,
                ),
    {
        rows.push(deployment.add_route(route));
    }
    rows
}

/// Composes the records of a definition under its fingerprint. The
/// identifiers are fresh and the deployment is published now.
pub fn compose(definition: ProjectFormat, hash: String, project_id: u128) -> (bundle: Bundle)
    ensures
        composed(bundle, definition, hash@, project_id),
{
    let deployment = Deployment::create(definition.version, hash, project_id);
    let handlers = compose_handlers(definition.handlers, &deployment);
    let routes = compose_routes(definition.routes, &deployment);
    Bundle { deployment, handlers, routes }
}

/// Where the creation of a deployment stands.
#[derive(Debug, PartialEq, Eq)]
pub enum CreateState {
    /// The project was asked for. `prepared` holds the records that the
    /// definition composes to, or why it has no fingerprint.
    Project { caller: u128, prepared: Result<Bundle, Failure> },
    /// The project was asked for a deployment with the bundle's fingerprint.
    Lookup { bundle: Bundle },
    /// The store was asked to store the bundle of the deployment `id`.
    Insert { project_id: u128, hash: String, id: u128 },
    /// The store refused the bundle for a duplicate, and was asked again for
    /// a deployment with its fingerprint.
    Retry { refused: StoreError },
    /// The operation has ended.
    Done,
}

/// Whether the store refused a statement because a record like it exists.
pub open spec fn is_duplicate(error: StoreError) -> bool {
    error matches StoreError::Database { kind: DatabaseErrorKind::UniqueViolation, .. }
}

/// Whether `out` is a first step of creating a deployment from `definition`.
/// All of it is determined but the fresh identifiers and the time in the
/// composed records.
pub open spec fn create_begins(
    out: (CreateState, Step),
    caller: Option<u128>,
    project_id: u128,
    definition: ProjectFormat,
    encoded: Result<String, String>,
) -> bool {
    match caller {
        None => out == (CreateState::Done, failed(Failure::Unauthorized)),
        Some(caller) => {
            &&& out.1 == Step::Ask(Query::FindProject { id: project_id })
            &&& out.0 matches CreateState::Project { caller: c, prepared }
            &&& c == caller
            &&& match encoded {
                Ok(text) => prepared matches Ok(bundle) && composed(
                    bundle,
                    definition,
                    fingerprint(encode_utf8(text@)),
                    project_id,
                ),
                Err(reason) => prepared == Err::<Bundle, Failure>(Failure::Encoding(reason)),
            }
        },
    }
}

/// The step of a creation that follows an answer.
///
/// A deployment with the same fingerprint stands for the submission: its
/// identifier is returned and nothing is stored. Where the store refuses the
/// bundle for a duplicate, a concurrent submission has won: the lookup is
/// made once more and the winner's identifier returned.
pub open spec fn create_next(state: CreateState, answer: Answer) -> (CreateState, Step) {
    match (state, answer) {
        (CreateState::Project { caller, prepared }, Answer::Project(Ok(project))) => {
            match project_refusal(project, caller) {
                Some(failure) => (CreateState::Done, failed(failure)),
                None => match prepared {
                    Err(failure) => (CreateState::Done, failed(failure)),
                    Ok(bundle) => (
                        CreateState::Lookup { bundle },
                        Step::Ask(
                            Query::FindDeploymentByHash {
                                project_id: project.id,
                                hash: bundle.deployment.hash,
                            },
                        ),
                    ),
                },
            }
        },
        (CreateState::Project { .. }, Answer::Project(Err(error))) => (
            CreateState::Done,
            failed(Failure::Store(error)),
        ),
        (CreateState::Lookup { .. }, Answer::Lookup(Ok(Some(existing)))) => (
            CreateState::Done,
            replied(Reply::Created { id: existing.id }),
        ),
        (CreateState::Lookup { bundle }, Answer::Lookup(Ok(None))) => (
            CreateState::Insert {
                project_id: bundle.deployment.project_id,
                hash: bundle.deployment.hash,
                id: bundle.deployment.id,
            },
            Step::Ask(Query::InsertBundle { bundle }),
        ),
        (CreateState::Lookup { .. }, Answer::Lookup(Err(error))) => (
            CreateState::Done,
            failed(Failure::Store(error)),
        ),
        (CreateState::Insert { id, .. }, Answer::Inserted(Ok(_))) => (
            CreateState::Done,
            replied(Reply::Created { id }),
        ),
        (CreateState::Insert { project_id, hash, .. }, Answer::Inserted(Err(error))) => {
            if is_duplicate(error) {
                (
                    CreateState::Retry { refused: error },
                    Step::Ask(Query::FindDeploymentByHash { project_id, hash }),
                )
            } else {
                (CreateState::Done, failed(Failure::Store(error)))
            }
        },
        (CreateState::Retry { .. }, Answer::Lookup(Ok(Some(existing)))) => (
            CreateState::Done,
            replied(Reply::Created { id: existing.id }),
        ),
        (CreateState::Retry { refused }, Answer::Lookup(Ok(None))) => (
            CreateState::Done,
            failed(Failure::Store(refused)),
        ),
        (CreateState::Retry { .. }, Answer::Lookup(Err(error))) => (
            CreateState::Done,
            failed(Failure::Store(error)),
        ),
        _ => (CreateState::Done, failed(Failure::Protocol)),
    }
}

/// Begins creating a deployment of a project from a submitted definition on
/// behalf of `caller`. `encoded` is the canonical encoding of the definition,
/// or the reason why it could not be encoded.
pub fn create(
    caller: Option<u128>,
    project_id: u128,
    definition: ProjectFormat,
    encoded: Result<String, String>,
) -> (out: (CreateState, Step))
    ensures
        create_begins(out, caller, project_id, definition, encoded),
{
    match caller {
        None => (CreateState::Done, Step::Done(Err(Failure::Unauthorized))),
        Some(caller) => {
            let prepared = match generate_hash(encoded) {
                Ok(hash) => Ok(compose(definition, hash, project_id)),
                Err(failure) => Err(failure),
            };
            (
                CreateState::Project { caller, prepared },
                Step::Ask(Query::FindProject { id: project_id }),
            )
        },
    }
}

/// Whether the store refused a statement because a record like it exists.
fn refused_as_duplicate(error: &StoreError) -> (b: bool)
    ensures
        b == is_duplicate(*error),
{
    match error {
        StoreError::Database { kind: DatabaseErrorKind::UniqueViolation, .. } => true,
        _ => false,
    }
}

/// Continues a creation with the answer to its last query.
pub fn create_resume(state: CreateState, answer: Answer) -> (out: (CreateState, Step))
    ensures
        out == create_next(state, answer),
{
    match state {
        CreateState::Project { caller, prepared } => match answer {
            Answer::Project(Ok(project)) => match check_owner(&project, caller) {
                Some(failure) => (CreateState::Done, Step::Done(Err(failure))),
                None => match prepared {
                    Err(failure) => (CreateState::Done, Step::Done(Err(failure))),
                    Ok(bundle) => {
                        let hash = bundle.deployment.hash.clone();
                        (
                            CreateState::Lookup { bundle },
                            Step::Ask(
                                Query::FindDeploymentByHash { project_id: project.id, hash },
                            ),
                        )
                    },
                },
            },
            Answer::Project(Err(error)) => (
                CreateState::Done,
                Step::Done(Err(Failure::Store(error))),
            ),
            _ => (CreateState::Done, Step::Done(Err(Failure::Protocol))),
        },
        CreateState::Lookup { bundle } => match answer {
            Answer::Lookup(Ok(Some(existing))) => (
                CreateState::Done,
                Step::Done(Ok(Reply::Created { id: existing.id })),
            ),
            Answer::Lookup(Ok(None)) => {
                let hash = bundle.deployment.hash.clone();
                (
                    CreateState::Insert {
                        project_id: bundle.deployment.project_id,
                        hash,
                        id: bundle.deployment.id,
                    },
                    Step::Ask(Query::InsertBundle { bundle }),
                )
            },
            Answer::Lookup(Err(error)) => (
                CreateState::Done,
                Step::Done(Err(Failure::Store(error))),
            ),
            _ => (CreateState::Done, Step::Done(Err(Failure::Protocol))),
        },
        CreateState::Insert { project_id, hash, id } => match answer {
            Answer::Inserted(Ok(_)) => (CreateState::Done, Step::Done(Ok(Reply::Created { id }))),
            Answer::Inserted(Err(error)) => {
                if refused_as_duplicate(&error) {
                    (
                        CreateState::Retry { refused: error },
                        Step::Ask(Query::FindDeploymentByHash { project_id, hash }),
                    )
                } else {
                    (CreateState::Done, Step::Done(Err(Failure::Store(error))))
                }
            },
            _ => (CreateState::Done, Step::Done(Err(Failure::Protocol))),
        },
        CreateState::Retry { refused } => match answer {
            Answer::Lookup(Ok(Some(existing))) => (
                CreateState::Done,
                Step::Done(Ok(Reply::Created { id: existing.id })),
            ),
            Answer::Lookup(Ok(None)) => (
                CreateState::Done,
                Step::Done(Err(Failure::Store(refused))),
            ),
            Answer::Lookup(Err(error)) => (
                CreateState::Done,
                Step::Done(Err(Failure::Store(error))),
            ),
            _ => (CreateState::Done, Step::Done(Err(Failure::Protocol))),
        },
        CreateState::Done => (CreateState::Done, Step::Done(Err(Failure::Protocol))),
    }
}

} // verus!
