//! The teardown coordinator: removing a deployment.
//!
//! The handlers go first, then the routes, then the deployment record, since
//! handlers and routes refer to the deployment and not the other way round.
//! After the record is gone the project's identifier is broadcast on the
//! channel `delete`. A failure on the way ends the operation where it stands:
//! what was removed stays removed, and the deployment can still be found and
//! deleted again.

use crate::access::{check_deployment, check_owner, deployment_refusal, project_refusal};
use crate::errors::Failure;
use crate::models::deployment::Deployment;
use crate::models::handler::Handler;
use crate::models::route::Route;
use crate::protocol::{failed, replied, Answer, Channel, Query, Reply, Step};
use vstd::prelude::*;

verus! {

/// Where the removal of a deployment stands.
#[derive(Debug, PartialEq, Eq)]
pub enum DeleteState {
    /// The project was asked for.
    Project { caller: u128, deployment_id: u128 },
    /// The deployment was asked for.
    Deployment { project_id: u128 },
    /// The deployment's handlers were asked for.
    Handlers { deployment: Deployment },
    /// The removal of the handler at `next` was asked for.
    DropHandlers { deployment: Deployment, handlers: Vec<Handler>, next: usize },
    /// The deployment's routes were asked for.
    Routes { deployment: Deployment },
    /// The removal of the route at `next` was asked for.
    DropRoutes { deployment: Deployment, routes: Vec<Route>, next: usize },
    /// The removal of the deployment record was asked for.
    DropDeployment { project_id: u128 },
    /// The broadcast was asked for.
    Notify,
    /// The operation has ended.
    Done,
}

/// The first step of a removal.
pub open spec fn delete_begin(caller: Option<u128>, project_id: u128, deployment_id: u128) -> (
    DeleteState,
    Step,
) {
    match caller {
        Some(caller) => (
            DeleteState::Project { caller, deployment_id },
            Step::Ask(Query::FindProject { id: project_id }),
        ),
        None => (DeleteState::Done, failed(Failure::Unauthorized)),
    }
}

/// The step that takes up the handlers from position `next` on: the handler
/// there is removed, and past the last of them the routes are asked for.
pub open spec fn drop_handlers(deployment: Deployment, handlers: Vec<Handler>, next: int) -> (
    DeleteState,
    Step,
) {
    if 0 <= next < handlers.len() {
        (
            DeleteState::DropHandlers { deployment, handlers, next: next as usize },
            Step::Ask(Query::DeleteHandler { id: handlers[next].id }),
        )
    } else {
        (
            DeleteState::Routes { deployment },
            Step::Ask(Query::FindRoutes { deployment_id: deployment.id }),
        )
    }
}

/// The step that takes up the routes from position `next` on: the route
/// there is removed, and past the last of them the deployment record.
pub open spec fn drop_routes(deployment: Deployment, routes: Vec<Route>, next: int) -> (
    DeleteState,
    Step,
) {
    if 0 <= next < routes.len() {
        (
            DeleteState::DropRoutes { deployment, routes, next: next as usize },
            Step::Ask(Query::DeleteRoute { id: routes[next].id }),
        )
    } else {
        (
            DeleteState::DropDeployment { project_id: deployment.project_id },
            Step::Ask(Query::DeleteDeployment { id: deployment.id }),
        )
    }
}

/// The step of a removal that follows an answer.
pub open spec fn delete_next(state: DeleteState, answer: Answer) -> (DeleteState, Step) {
    match (state, answer) {
        (DeleteState::Project { caller, deployment_id }, Answer::Project(Ok(project))) => {
            match project_refusal(project, caller) {
                Some(failure) => (DeleteState::Done, failed(failure)),
                None => (
                    DeleteState::Deployment { project_id: project.id },
                    Step::Ask(Query::FindDeployment { id: deployment_id }),
                ),
            }
        },
        (DeleteState::Project { .. }, Answer::Project(Err(error))) => (
            DeleteState::Done,
            failed(Failure::Store(error)),
        ),
        (DeleteState::Deployment { project_id }, Answer::Deployment(Ok(deployment))) => {
            match deployment_refusal(deployment, project_id) {
                Some(failure) => (DeleteState::Done, failed(failure)),
                None => (
                    DeleteState::Handlers { deployment },
                    Step::Ask(Query::FindHandlers { deployment_id: deployment.id }),
                ),
            }
        },
        (DeleteState::Deployment { .. }, Answer::Deployment(Err(error))) => (
            DeleteState::Done,
            failed(Failure::Store(error)),
        ),
        (DeleteState::Handlers { deployment }, Answer::Handlers(Ok(handlers))) => drop_handlers(
            deployment,
            handlers,
            0,
        ),
        (DeleteState::Handlers { .. }, Answer::Handlers(Err(error))) => (
            DeleteState::Done,
            failed(Failure::Store(error)),
        ),
        (DeleteState::DropHandlers { deployment, handlers, next }, Answer::Deleted(Ok(_))) => {
            drop_handlers(deployment, handlers, next + 1)
        },
        (DeleteState::DropHandlers { .. }, Answer::Deleted(Err(error))) => (
            DeleteState::Done,
            failed(Failure::Store(error)),
        ),
        (DeleteState::Routes { deployment }, Answer::Routes(Ok(routes))) => drop_routes(
            deployment,
            routes,
            0,
        ),
        (DeleteState::Routes { .. }, Answer::Routes(Err(error))) => (
            DeleteState::Done,
            failed(Failure::Store(error)),
        ),
        (DeleteState::DropRoutes { deployment, routes, next }, Answer::Deleted(Ok(_))) => {
            drop_routes(deployment, routes, next + 1)
        },
        (DeleteState::DropRoutes { .. }, Answer::Deleted(Err(error))) => (
            DeleteState::Done,
            failed(Failure::Store(error)),
        ),
        (DeleteState::DropDeployment { project_id }, Answer::Deleted(Ok(_))) => (
            DeleteState::Notify,
            Step::Ask(Query::Publish { channel: Channel::Delete, project_id }),
        ),
        (DeleteState::DropDeployment { .. }, Answer::Deleted(Err(error))) => (
            DeleteState::Done,
            failed(Failure::Store(error)),
        ),
        (DeleteState::Notify, Answer::Published(Ok(_))) => (
            DeleteState::Done,
            replied(Reply::Success),
        ),
        (DeleteState::Notify, Answer::Published(Err(text))) => (
            DeleteState::Done,
            failed(Failure::Channel(text)),
        ),
        _ => (DeleteState::Done, failed(Failure::Protocol)),
    }
}

/// Begins removing a deployment of a project on behalf of `caller`.
pub fn delete(caller: Option<u128>, project_id: u128, deployment_id: u128) -> (out: (
    DeleteState,
    Step,
))
    ensures
        out == delete_begin(caller, project_id, deployment_id),
{
    match caller {
        Some(caller) => (
            DeleteState::Project { caller, deployment_id },
            Step::Ask(Query::FindProject { id: project_id }),
        ),
        None => (DeleteState::Done, Step::Done(Err(Failure::Unauthorized))),
    }
}

/// Takes up the handlers from position `next` on.
fn on_handlers(deployment: Deployment, handlers: Vec<Handler>, next: usize) -> (out: (
    DeleteState,
    Step,
))
    ensures
        out == drop_handlers(deployment, handlers, next as int),
{
    if next < handlers.len() {
        let id = handlers[next].id;
        (DeleteState::DropHandlers { deployment, handlers, next }, Step::Ask(Query::DeleteHandler { id }))
    } else {
        let id = deployment.id;
        (DeleteState::Routes { deployment }, Step::Ask(Query::FindRoutes { deployment_id: id }))
    }
}

/// Takes up the routes from position `next` on.
fn on_routes(deployment: Deployment, routes: Vec<Route>, next: usize) -> (out: (
    DeleteState,
    Step,
))
    ensures
        out == drop_routes(deployment, routes, next as int),
{
    if next < routes.len() {
        let id = routes[next].id;
        (DeleteState::DropRoutes { deployment, routes, next }, Step::Ask(Query::DeleteRoute { id }))
    } else {
        (
            DeleteState::DropDeployment { project_id: deployment.project_id },
            Step::Ask(Query::DeleteDeployment { id: deployment.id }),
        )
    }
}

/// Continues a removal with the answer to its last query.
pub fn delete_resume(state: DeleteState, answer: Answer) -> (out: (DeleteState, Step))
    ensures
        out == delete_next(state, answer),
{
    match state {
        DeleteState::Project { caller, deployment_id } => match answer {
            Answer::Project(Ok(project)) => match check_owner(&project, caller) {
                Some(failure) => (DeleteState::Done, Step::Done(Err(failure))),
                None => (
                    DeleteState::Deployment { project_id: project.id },
                    Step::Ask(Query::FindDeployment { id: deployment_id }),
                ),
            },
            Answer::Project(Err(error)) => (
                DeleteState::Done,
                Step::Done(Err(Failure::Store(error))),
            ),
            _ => (DeleteState::Done, Step::Done(Err(Failure::Protocol))),
        },
        DeleteState::Deployment { project_id } => match answer {
            Answer::Deployment(Ok(deployment)) => match check_deployment(&deployment, project_id) {
                Some(failure) => (DeleteState::Done, Step::Done(Err(failure))),
                None => {
                    let id = deployment.id;
                    (
                        DeleteState::Handlers { deployment },
                        Step::Ask(Query::FindHandlers { deployment_id: id }),
                    )
                },
            },
            Answer::Deployment(Err(error)) => (
                DeleteState::Done,
                Step::Done(Err(Failure::Store(error))),
            ),
            _ => (DeleteState::Done, Step::Done(Err(Failure::Protocol))),
        },
        DeleteState::Handlers { deployment } => match answer {
            Answer::Handlers(Ok(handlers)) => on_handlers(deployment, handlers, 0),
            Answer::Handlers(Err(error)) => (
                DeleteState::Done,
                Step::Done(Err(Failure::Store(error))),
            ),
            _ => (DeleteState::Done, Step::Done(Err(Failure::Protocol))),
        },
        DeleteState::DropHandlers { deployment, handlers, next } => match answer {
            Answer::Deleted(Ok(_)) => {
                if next < handlers.len() {
                    on_handlers(deployment, handlers, next + 1)
                } else {
                    let id = deployment.id;
                    (
                        DeleteState::Routes { deployment },
                        Step::Ask(Query::FindRoutes { deployment_id: id }),
                    )
                }
            },
            Answer::Deleted(Err(error)) => (
                DeleteState::Done,
                Step::Done(Err(Failure::Store(error))),
            ),
            _ => (DeleteState::Done, Step::Done(Err(Failure::Protocol))),
        },
        DeleteState::Routes { deployment } => match answer {
            Answer::Routes(Ok(routes)) => on_routes(deployment, routes, 0),
            Answer::Routes(Err(error)) => (
                DeleteState::Done,
                Step::Done(Err(Failure::Store(error))),
            ),
            _ => (DeleteState::Done, Step::Done(Err(Failure::Protocol))),
        },
        DeleteState::DropRoutes { deployment, routes, next } => match answer {
            Answer::Deleted(Ok(_)) => {
                if next < routes.len() {
                    on_routes(deployment, routes, next + 1)
                } else {
                    (
                        DeleteState::DropDeployment { project_id: deployment.project_id },
                        Step::Ask(Query::DeleteDeployment { id: deployment.id }),
                    )
                }
            },
            Answer::Deleted(Err(error)) => (
                DeleteState::Done,
                Step::Done(Err(Failure::Store(error))),
            ),
            _ => (DeleteState::Done, Step::Done(Err(Failure::Protocol))),
        },
        DeleteState::DropDeployment { project_id } => match answer {
            Answer::Deleted(Ok(_)) => (
                DeleteState::Notify,
                Step::Ask(Query::Publish { channel: Channel::Delete, project_id }),
            ),
            Answer::Deleted(Err(error)) => (
                DeleteState::Done,
                Step::Done(Err(Failure::Store(error))),
            ),
            _ => (DeleteState::Done, Step::Done(Err(Failure::Protocol))),
        },
        DeleteState::Notify => match answer {
            Answer::Published(Ok(_)) => (DeleteState::Done, Step::Done(Ok(Reply::Success))),
            Answer::Published(Err(text)) => (
                DeleteState::Done,
                Step::Done(Err(Failure::Channel(text))),
            ),
            _ => (DeleteState::Done, Step::Done(Err(Failure::Protocol))),
        },
        DeleteState::Done => (DeleteState::Done, Step::Done(Err(Failure::Protocol))),
    }
}

} // verus!
