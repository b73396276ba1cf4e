//! Listing a project's deployments and reading one of them.
//!
//! A deployment is read only once its assets are complete, and then with all
//! of its routes and handlers.

use crate::access::{check_deployment, check_owner, deployment_refusal, project_refusal};
use crate::errors::Failure;
use crate::models::deployment::Deployment;
use crate::models::route::Route;
use crate::protocol::{failed, replied, Answer, Query, ReadResponse, Reply, Step};
use vstd::prelude::*;

verus! {

/// Where the listing of a project's deployments stands.
#[derive(Clone, Debug, PartialEq, Eq)]
pub enum ListState {
    /// The project was asked for.
    Project { caller: u128 },
    /// The project's deployments were asked for.
    Deployments,
    /// The operation has ended.
    Done,
}

/// Where the reading of a deployment stands.
#[derive(Clone, Debug, PartialEq, Eq)]
pub enum ReadState {
    /// The project was asked for.
    Project { caller: u128, deployment_id: u128 },
    /// The deployment was asked for.
    Deployment { project_id: u128 },
    /// The deployment's routes were asked for.
    Routes { deployment: Deployment },
    /// The deployment's handlers were asked for.
    Handlers { deployment: Deployment, routes: Vec<Route> },
    /// The operation has ended.
    Done,
}

/// The first step of a listing.
pub open spec fn list_begin(caller: Option<u128>, project_id: u128) -> (ListState, Step) {
    match caller {
        Some(caller) => (ListState::Project { caller }, Step::Ask(Query::FindProject { id: project_id })),
        None => (ListState::Done, failed(Failure::Unauthorized)),
    }
}

/// The step of a listing that follows an answer.
pub open spec fn list_next(state: ListState, answer: Answer) -> (ListState, Step) {
    match (state, answer) {
        (ListState::Project { caller }, Answer::Project(Ok(project))) => match project_refusal(
            project,
            caller,
        ) {
            Some(failure) => (ListState::Done, failed(failure)),
            None => (
                ListState::Deployments,
                Step::Ask(Query::FindDeployments { project_id: project.id }),
            ),
        },
        (ListState::Project { .. }, Answer::Project(Err(error))) => (
            ListState::Done,
            failed(Failure::Store(error)),
        ),
        (ListState::Deployments, Answer::Deployments(Ok(rows))) => (
            ListState::Done,
            replied(Reply::Deployments(rows)),
        ),
        (ListState::Deployments, Answer::Deployments(Err(error))) => (
            ListState::Done,
            failed(Failure::Store(error)),
        ),
        _ => (ListState::Done, failed(Failure::Protocol)),
    }
}

/// The first step of a read.
pub open spec fn read_begin(caller: Option<u128>, project_id: u128, deployment_id: u128) -> (
    ReadState,
    Step,
) {
    match caller {
        Some(caller) => (
            ReadState::Project { caller, deployment_id },
            Step::Ask(Query::FindProject { id: project_id }),
        ),
        None => (ReadState::Done, failed(Failure::Unauthorized)),
    }
}

/// Why a deployment of the project cannot be read, if it cannot.
pub open spec fn read_refusal(deployment: Deployment, project_id: u128) -> Option<Failure> {
    match deployment_refusal(deployment, project_id) {
        Some(failure) => Some(failure),
        None => if !deployment.has_static {
            Some(Failure::NotComplete)
        } else {
            None
        },
    }
}

/// The step of a read that follows an answer.
pub open spec fn read_next(state: ReadState, answer: Answer) -> (ReadState, Step) {
    match (state, answer) {
        (ReadState::Project { caller, deployment_id }, Answer::Project(Ok(project))) => {
            match project_refusal(project, caller) {
                Some(failure) => (ReadState::Done, failed(failure)),
                None => (
                    ReadState::Deployment { project_id: project.id },
                    Step::Ask(Query::FindDeployment { id: deployment_id }),
                ),
            }
        },
        (ReadState::Project { .. }, Answer::Project(Err(error))) => (
            ReadState::Done,
            failed(Failure::Store(error)),
        ),
        (ReadState::Deployment { project_id }, Answer::Deployment(Ok(deployment))) => {
            match read_refusal(deployment, project_id) {
                Some(failure) => (ReadState::Done, failed(failure)),
                None => (
                    ReadState::Routes { deployment },
                    Step::Ask(Query::FindRoutes { deployment_id: deployment.id }),
                ),
            }
        },
        (ReadState::Deployment { .. }, Answer::Deployment(Err(error))) => (
            ReadState::Done,
            failed(Failure::Store(error)),
        ),
        (ReadState::Routes { deployment }, Answer::Routes(Ok(routes))) => (
            ReadState::Handlers { deployment, routes },
            Step::Ask(Query::FindHandlers { deployment_id: deployment.id }),
        ),
        (ReadState::Routes { .. }, Answer::Routes(Err(error))) => (
            ReadState::Done,
            failed(Failure::Store(error)),
        ),
        (ReadState::Handlers { deployment, routes }, Answer::Handlers(Ok(handlers))) => (
            ReadState::Done,
            replied(Reply::Read(ReadResponse { deployment, routes, handlers })),
        ),
        (ReadState::Handlers { .. }, Answer::Handlers(Err(error))) => (
            ReadState::Done,
            failed(Failure::Store(error)),
        ),
        _ => (ReadState::Done, failed(Failure::Protocol)),
    }
}

/// Begins listing the deployments of a project on behalf of `caller`.
pub fn list(caller: Option<u128>, project_id: u128) -> (out: (ListState, Step))
    ensures
        out == list_begin(caller, project_id),
{
    match caller {
        Some(caller) => (ListState::Project { caller }, Step::Ask(Query::FindProject { id: project_id })),
        None => (ListState::Done, Step::Done(Err(Failure::Unauthorized))),
    }
}

/// Continues a listing with the answer to its last query.
pub fn list_resume(state: ListState, answer: Answer) -> (out: (ListState, Step))
    ensures
        out == list_next(state, answer),
{
    match state {
        ListState::Project { caller } => match answer {
            Answer::Project(Ok(project)) => match check_owner(&project, caller) {
                Some(failure) => (ListState::Done, Step::Done(Err(failure))),
                None => (
                    ListState::Deployments,
                    Step::Ask(Query::FindDeployments { project_id: project.id }),
                ),
            },
            Answer::Project(Err(error)) => (ListState::Done, Step::Done(Err(Failure::Store(error)))),
            _ => (ListState::Done, Step::Done(Err(Failure::Protocol))),
        },
        ListState::Deployments => match answer {
            Answer::Deployments(Ok(rows)) => (ListState::Done, Step::Done(Ok(Reply::Deployments(rows)))),
            Answer::Deployments(Err(error)) => (
                ListState::Done,
                Step::Done(Err(Failure::Store(error))),
            ),
            _ => (ListState::Done, Step::Done(Err(Failure::Protocol))),
        },
        ListState::Done => (ListState::Done, Step::Done(Err(Failure::Protocol))),
    }
}

/// Begins reading a deployment of a project on behalf of `caller`.
pub fn read(caller: Option<u128>, project_id: u128, deployment_id: u128) -> (out: (
    ReadState,
    Step,
))
    ensures
        out == read_begin(caller, project_id, deployment_id),
{
    match caller {
        Some(caller) => (
            ReadState::Project { caller, deployment_id },
            Step::Ask(Query::FindProject { id: project_id }),
        ),
        None => (ReadState::Done, Step::Done(Err(Failure::Unauthorized))),
    }
}

/// Whether a deployment of the project can be read.
fn check_readable(deployment: &Deployment, project_id: u128) -> (refusal: Option<Failure>)
    ensures
        refusal == read_refusal(*deployment, project_id),
{
    match check_deployment(deployment, project_id) {
        Some(failure) => Some(failure),
        None => {
            if !deployment.has_static {
                Some(Failure::NotComplete)
            } else {
                None
            }
        },
    }
}

/// Continues a read with the answer to its last query.
pub fn read_resume(state: ReadState, answer: Answer) -> (out: (ReadState, Step))
    ensures
        out == read_next(state, answer),
{
    match state {
        ReadState::Project { caller, deployment_id } => match answer {
            Answer::Project(Ok(project)) => match check_owner(&project, caller) {
                Some(failure) => (ReadState::Done, Step::Done(Err(failure))),
                None => (
                    ReadState::Deployment { project_id: project.id },
                    Step::Ask(Query::FindDeployment { id: deployment_id }),
                ),
            },
            Answer::Project(Err(error)) => (ReadState::Done, Step::Done(Err(Failure::Store(error)))),
            _ => (ReadState::Done, Step::Done(Err(Failure::Protocol))),
        },
        ReadState::Deployment { project_id } => match answer {
            Answer::Deployment(Ok(deployment)) => match check_readable(&deployment, project_id) {
                Some(failure) => (ReadState::Done, Step::Done(Err(failure))),
                None => {
                    let id = deployment.id;
                    (
                        ReadState::Routes { deployment },
                        Step::Ask(Query::FindRoutes { deployment_id: id }),
                    )
                },
            },
            Answer::Deployment(Err(error)) => (
                ReadState::Done,
                Step::Done(Err(Failure::Store(error))),
            ),
            _ => (ReadState::Done, Step::Done(Err(Failure::Protocol))),
        },
        ReadState::Routes { deployment } => match answer {
            Answer::Routes(Ok(routes)) => {
                let id = deployment.id;
                (
                    ReadState::Handlers { deployment, routes },
                    Step::Ask(Query::FindHandlers { deployment_id: id }),
                )
            },
            Answer::Routes(Err(error)) => (ReadState::Done, Step::Done(Err(Failure::Store(error)))),
            _ => (ReadState::Done, Step::Done(Err(Failure::Protocol))),
        },
        ReadState::Handlers { deployment, routes } => match answer {
            Answer::Handlers(Ok(handlers)) => (
                ReadState::Done,
                Step::Done(Ok(Reply::Read(ReadResponse { deployment, routes, handlers }))),
            ),
            Answer::Handlers(Err(error)) => (
                ReadState::Done,
                Step::Done(Err(Failure::Store(error))),
            ),
            _ => (ReadState::Done, Step::Done(Err(Failure::Protocol))),
        },
        ReadState::Done => (ReadState::Done, Step::Done(Err(Failure::Protocol))),
    }
}

} // verus!
