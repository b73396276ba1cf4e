//! Project records. A project owns its deployments and belongs to one user.

use crate::ident::{fresh_id, now, Timestamp};
use vstd::prelude::*;

verus! {

/// What a caller submits to create or change a project.
#[derive(Clone, Debug, PartialEq, Eq)]
pub struct ProjectMessage {
    pub name: String,
    pub description: String,
    pub updated_at: Option<Timestamp>,
}

/// A stored project.
#[derive(Clone, Debug, PartialEq, Eq)]
pub struct Project {
    pub id: u128,
    pub user_id: u128,
    pub name: String,
    pub description: String,
    pub created_at: Timestamp,
    pub updated_at: Option<Timestamp>,
}

impl Project {
    /// The record of a new project of the given user, made at the given time.
    pub fn with_id(id: u128, project: ProjectMessage, uid: u128, created_at: Timestamp) -> (row:
        Project)
        ensures
            row.id == id,
            row.user_id == uid,
            row.name == project.name,
            row.description == project.description,
            row.created_at == created_at,
            row.updated_at.is_none(),
    {
        Project {
            id,
            user_id: uid,
            name: project.name,
            description: project.description,
            created_at,
            updated_at: None,
        }
    }

    /// The record of a new project of the given user, under a fresh
    /// identifier and made now.
    pub fn create(project: ProjectMessage, uid: u128) -> (row: Project)
        ensures
            row.user_id == uid,
            row.name == project.name,
            row.description == project.description,
            row.updated_at.is_none(),
    {
        Project::with_id(fresh_id(), project, uid, now())
    }

    /// The changes to store for an update made now: those submitted, with the
    /// time of the update.
    pub fn update(project: ProjectMessage) -> (changes: ProjectMessage)
        ensures
            changes.name == project.name,
            changes.description == project.description,
            changes.updated_at.is_some(),
    {
        ProjectMessage {
            name: project.name,
            description: project.description,
            updated_at: Some(now()),
        }
    }
}

} // verus!
