//! Who may do what: the checks every operation on a deployment starts with.

use crate::errors::Failure;
use crate::models::deployment::Deployment;
use crate::models::project::Project;
use vstd::prelude::*;

verus! {

/// The identifier of the authenticated user, or why there is none.
pub open spec fn authenticated(id: Option<u128>) -> Result<u128, Failure> {
    match id {
        Some(id) => Ok(id),
        None => Err(Failure::Unauthorized),
    }
}

/// Whether an operation by `caller` on `project` is refused, and why.
pub open spec fn project_refusal(project: Project, caller: u128) -> Option<Failure> {
    if project.user_id != caller {
        Some(Failure::Forbidden)
    } else {
        None
    }
}

/// Whether `deployment` is refused as a deployment of the project, and why.
pub open spec fn deployment_refusal(deployment: Deployment, project_id: u128) -> Option<Failure> {
    if deployment.project_id != project_id {
        Some(Failure::DeploymentNotFound)
    } else {
        None
    }
}

/// The authenticated user's identifier, as the session holds it.
pub fn is_authenticated(id: Option<u128>) -> (user: Result<u128, Failure>)
    ensures
        user == authenticated(id),
{
    match id {
        Some(id) => Ok(id),
        None => Err(Failure::Unauthorized),
    }
}

/// Only a project's owner may act on it.
pub fn check_owner(project: &Project, caller: u128) -> (refusal: Option<Failure>)
    ensures
        refusal == project_refusal(*project, caller),
{
    if project.user_id != caller {
        Some(Failure::Forbidden)
    } else {
        None
    }
}

/// A deployment is reached only through the project that owns it.
pub fn check_deployment(deployment: &Deployment, project_id: u128) -> (refusal: Option<Failure>)
    ensures
        refusal == deployment_refusal(*deployment, project_id),
{
    if deployment.project_id != project_id {
        Some(Failure::DeploymentNotFound)
    } else {
        None
    }
}

} // verus!
