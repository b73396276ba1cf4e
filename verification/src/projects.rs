//! The rules on projects: how they may be named, and who may touch them.

use crate::errors::Failure;
use crate::models::project::Project;
use vstd::prelude::*;

verus! {

/// Whether a character may stand in a project's name: an ASCII letter or
/// digit, an underscore or a hyphen.
pub open spec fn is_name_char(c: char) -> bool {
    ('a' <= c && c <= 'z') || ('A' <= c && c <= 'Z') || ('0' <= c && c <= '9') || c == '_' || c
        == '-'
}

/// Whether a text may name a project: it is not empty and each of its
/// characters may stand in a name.
pub open spec fn is_project_name(name: Seq<char>) -> bool {
    name.len() > 0 && forall|i: int| 0 <= i < name.len() ==> is_name_char(#[trigger] name[i])
}

/// `regex::Regex::new` with the pattern `^[a-zA-Z0-9_-]+$` and
/// `Regex::is_match`: whether the whole text is one or more characters of
/// the class.
#[verifier::external_body]
fn matches_name_pattern(name: &str) -> (b: bool)
    ensures
        b == is_project_name(name@),
{
    match regex::Regex::new(r"^[a-zA-Z0-9_-]+$") {
        Ok(pattern) => pattern.is_match(name),
        Err(_) => false,
    }
}

/// Why a project cannot be created under a name, if it cannot.
pub fn create(name: &str) -> (refusal: Option<Failure>)
    ensures
        refusal == (if is_project_name(name@) {
            None::<Failure>
        } else {
            Some(Failure::ProjectName)
        }),
{
    if matches_name_pattern(name) {
        None
    } else {
        Some(Failure::ProjectName)
    }
}

/// Why a caller may not read, change or delete a project, if they may not:
/// only its owner may.
pub fn check_access(project: &Project, caller: u128) -> (refusal: Option<Failure>)
    ensures
        refusal == (if project.user_id == caller {
            None::<Failure>
        } else {
            Some(Failure::NotOwner)
        }),
{
    if project.user_id == caller {
        None
    } else {
        Some(Failure::NotOwner)
    }
}

} // verus!
