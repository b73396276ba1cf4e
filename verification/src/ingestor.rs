//! The archive ingestor: an upload of static assets for a deployment.
//!
//! The checks come first and in this order: the caller owns the project, the
//! deployment belongs to it and is not yet complete, the upload has a part
//! named `static`, and the part is declared to be a zip archive. Only then
//! is the part read, the archive opened and its entries put into the blob
//! store, each under a key in the project's namespace. After the last of
//! them the deployment is marked complete, and the project's identifier is
//! broadcast on the channel `publish`.

use crate::access::{check_deployment, check_owner, deployment_refusal, project_refusal};
use crate::archive::{
    all_within, entries_of, extract, is_readable, pending_writes, plan_writes, write_views,
    RawEntry,
};
use crate::errors::{Failure, ParseFailure};
use crate::models::deployment::Deployment;
use crate::paths::within_namespace;
use crate::protocol::{failed, replied, Answer, BlobWrite, Channel, Part, Query, Reply, Step};
use crate::text::reads_as;
use vstd::prelude::*;

verus! {

/// The deployment that an upload is for, and the project that owns it.
#[derive(Clone, Copy, Debug, PartialEq, Eq, Structural)]
pub struct Target {
    pub project_id: u128,
    pub deployment_id: u128,
}

/// Where an upload stands.
#[derive(Debug, PartialEq, Eq)]
pub enum UploadState {
    /// The project was asked for.
    Project { caller: u128, deployment_id: u128 },
    /// The deployment was asked for.
    Deployment { project_id: u128 },
    /// The next part of the upload was asked for.
    Parts { target: Target },
    /// The next chunk of the part named `static` was asked for; `buffer`
    /// holds the chunks so far.
    Chunks { target: Target, buffer: Vec<u8> },
    /// A write was asked for; `pending` holds those that remain, the last of
    /// them next.
    Writes { target: Target, pending: Vec<BlobWrite> },
    /// The store was asked to mark the deployment complete.
    Mark { project_id: u128 },
    /// The broadcast was asked for.
    Notify,
    /// The operation has ended.
    Done,
}

/// The mathematical content of an [`UploadState`].
pub enum UploadStateView {
    Project { caller: u128, deployment_id: u128 },
    Deployment { project_id: u128 },
    Parts { target: Target },
    Chunks { target: Target, buffer: Seq<u8> },
    Writes { target: Target, pending: Seq<BlobWrite> },
    Mark { project_id: u128 },
    Notify,
    Done,
}

impl View for UploadState {
    type V = UploadStateView;

    open spec fn view(&self) -> UploadStateView {
        match *self {
            UploadState::Project { caller, deployment_id } => UploadStateView::Project {
                caller,
                deployment_id,
            },
            UploadState::Deployment { project_id } => UploadStateView::Deployment { project_id },
            UploadState::Parts { target } => UploadStateView::Parts { target },
            UploadState::Chunks { target, buffer } => UploadStateView::Chunks {
                target,
                buffer: buffer@,
            },
            UploadState::Writes { target, pending } => UploadStateView::Writes {
                target,
                pending: pending@,
            },
            UploadState::Mark { project_id } => UploadStateView::Mark { project_id },
            UploadState::Notify => UploadStateView::Notify,
            UploadState::Done => UploadStateView::Done,
        }
    }
}

/// The first step of an upload.
pub open spec fn upload_begin(caller: Option<u128>, project_id: u128, deployment_id: u128) -> (
    UploadStateView,
    Step,
) {
    match caller {
        Some(caller) => (
            UploadStateView::Project { caller, deployment_id },
            Step::Ask(Query::FindProject { id: project_id }),
        ),
        None => (UploadStateView::Done, failed(Failure::Unauthorized)),
    }
}

/// Why assets cannot be uploaded for a deployment of the project, if they
/// cannot: a deployment takes its assets once.
pub open spec fn upload_refusal(deployment: Deployment, project_id: u128) -> Option<Failure> {
    match deployment_refusal(deployment, project_id) {
        Some(failure) => Some(failure),
        None => if deployment.has_static {
            Some(Failure::AlreadyComplete)
        } else {
            None
        },
    }
}

/// Whether a part is declared to be a zip archive: as `application/zip`, or
/// as `application/x-zip-compressed`, which some browsers say instead.
pub open spec fn is_zip(part: Part) -> bool {
    part.media_type@ == "application"@ && (part.media_subtype@ == "zip"@ || part.media_subtype@
        == "x-zip-compressed"@)
}

/// The step that follows the header of a part.
pub open spec fn after_part(target: Target, part: Part) -> (UploadStateView, Step) {
    match part.name {
        None => (UploadStateView::Done, failed(Failure::Parse(ParseFailure::Incomplete))),
        Some(name) => if name@ == "static"@ {
            if is_zip(part) {
                (
                    UploadStateView::Chunks { target, buffer: Seq::empty() },
                    Step::Ask(Query::NextChunk),
                )
            } else {
                (UploadStateView::Done, failed(Failure::UnsupportedMedia))
            }
        } else {
            (UploadStateView::Parts { target }, Step::Ask(Query::NextPart))
        },
    }
}

/// The step that takes up the writes that remain: the last of them is asked
/// for, and when none is left the deployment is marked complete.
pub open spec fn next_write(target: Target, pending: Seq<BlobWrite>) -> (UploadStateView, Step) {
    if pending.len() > 0 {
        (
            UploadStateView::Writes { target, pending: pending.drop_last() },
            Step::Ask(Query::PutBlob { write: pending.last() }),
        )
    } else {
        (
            UploadStateView::Mark { project_id: target.project_id },
            Step::Ask(Query::MarkComplete { id: target.deployment_id }),
        )
    }
}

/// Whether an answer ends the part named `static`, so that the archive is
/// opened next.
pub open spec fn ends_field(state: UploadStateView, answer: Answer) -> bool {
    state is Chunks && answer matches Answer::Chunk(Ok(None))
}

/// The step of an upload that follows an answer, for every answer but the
/// one that ends the part named `static`.
pub open spec fn upload_next(state: UploadStateView, answer: Answer) -> (UploadStateView, Step) {
    match (state, answer) {
        (UploadStateView::Project { caller, deployment_id }, Answer::Project(Ok(project))) => {
            match project_refusal(project, caller) {
                Some(failure) => (UploadStateView::Done, failed(failure)),
                None => (
                    UploadStateView::Deployment { project_id: project.id },
                    Step::Ask(Query::FindDeployment { id: deployment_id }),
                ),
            }
        },
        (UploadStateView::Project { .. }, Answer::Project(Err(error))) => (
            UploadStateView::Done,
            failed(Failure::Store(error)),
        ),
        (UploadStateView::Deployment { project_id }, Answer::Deployment(Ok(deployment))) => {
            match upload_refusal(deployment, project_id) {
                Some(failure) => (UploadStateView::Done, failed(failure)),
                None => (
                    UploadStateView::Parts {
                        target: Target { project_id, deployment_id: deployment.id },
                    },
                    Step::Ask(Query::NextPart),
                ),
            }
        },
        (UploadStateView::Deployment { .. }, Answer::Deployment(Err(error))) => (
            UploadStateView::Done,
            failed(Failure::Store(error)),
        ),
        (UploadStateView::Parts { target }, Answer::Part(Ok(Some(part)))) => after_part(
            target,
            part,
        ),
        (UploadStateView::Parts { .. }, Answer::Part(_)) => (
            UploadStateView::Done,
            failed(Failure::MissingField),
        ),
        (UploadStateView::Chunks { target, buffer }, Answer::Chunk(Ok(Some(data)))) => (
            UploadStateView::Chunks { target, buffer: buffer + data@ },
            Step::Ask(Query::NextChunk),
        ),
        (UploadStateView::Chunks { .. }, Answer::Chunk(Err(error))) => (
            UploadStateView::Done,
            failed(Failure::Parse(error)),
        ),
        (UploadStateView::Writes { target, pending }, Answer::Stored(Ok(_))) => next_write(
            target,
            pending,
        ),
        (UploadStateView::Writes { .. }, Answer::Stored(Err(error))) => (
            UploadStateView::Done,
            failed(Failure::Blocking(error)),
        ),
        (UploadStateView::Mark { project_id }, Answer::Marked(Ok(_))) => (
            UploadStateView::Notify,
            Step::Ask(Query::Publish { channel: Channel::Publish, project_id }),
        ),
        (UploadStateView::Mark { .. }, Answer::Marked(Err(error))) => (
            UploadStateView::Done,
            failed(Failure::Store(error)),
        ),
        (UploadStateView::Notify, Answer::Published(Ok(_))) => (
            UploadStateView::Done,
            replied(Reply::Success),
        ),
        (UploadStateView::Notify, Answer::Published(Err(text))) => (
            UploadStateView::Done,
            failed(Failure::Channel(text)),
        ),
        _ => (UploadStateView::Done, failed(Failure::Protocol)),
    }
}

/// Whether `out` follows the reading of an archive's entries: the writes
/// that are planned for them are taken up, and an unreadable archive ends
/// the upload before anything is written.
pub open spec fn follows_entries(
    out: (UploadStateView, Step),
    target: Target,
    entries: Result<Vec<RawEntry>, Failure>,
) -> bool {
    match entries {
        Err(failure) => out == (UploadStateView::Done, failed(failure)),
        Ok(entries) => {
            let plan = pending_writes(target.project_id, entries@);
            if plan.len() == 0 {
                out == next_write(target, Seq::empty())
            } else {
                &&& out.0 matches UploadStateView::Writes { target: t, pending }
                &&& t == target
                &&& write_views(pending) == plan.drop_last()
                &&& all_within(pending, target.project_id)
                &&& out.1 matches Step::Ask(Query::PutBlob { write })
                &&& write@ == plan.last()
                &&& within_namespace(write.key@, target.project_id)
            }
        },
    }
}

/// Whether `out` is what the opening of the bytes `buffer` as an archive
/// comes to. Where they are an archive all of whose entries can be read, the
/// writes that are planned for its entries are taken up: the entries are
/// those of the archive, under its names and with its bytes. Where they are
/// none, or an entry cannot be read, the upload ends as invalid before
/// anything is written.
pub open spec fn follows_archive(out: (UploadStateView, Step), target: Target, buffer: Seq<u8>)
    -> bool {
    if is_readable(buffer) {
        exists|entries: Vec<RawEntry>|
            entries_of(entries@, buffer) && #[trigger] follows_entries(out, target, Ok(entries))
    } else {
        out == (UploadStateView::Done, failed(Failure::InvalidArchive))
    }
}

/// Whether `out` follows the end of the part named `static`.
pub open spec fn follows_field(out: (UploadStateView, Step), state: UploadStateView) -> bool {
    match state {
        UploadStateView::Chunks { target, buffer } => follows_archive(out, target, buffer),
        _ => false,
    }
}

/// Whether every write that a state still holds goes to a key in the
/// namespace of the project that the upload is for.
pub open spec fn upload_contained(state: UploadStateView) -> bool {
    state matches UploadStateView::Writes { target, pending } ==> all_within(
        pending,
        target.project_id,
    )
}

/// The project whose namespace the writes of an upload go to.
pub open spec fn upload_project(state: UploadStateView) -> u128 {
    match state {
        UploadStateView::Chunks { target, .. } => target.project_id,
        UploadStateView::Writes { target, .. } => target.project_id,
        _ => 0,
    }
}

/// Whether a step, if it asks for a write, asks for one in the project's
/// namespace.
pub open spec fn writes_within(step: Step, project_id: u128) -> bool {
    step matches Step::Ask(Query::PutBlob { write }) ==> within_namespace(write.key@, project_id)
}

/// Begins an upload of static assets for a deployment of a project on
/// behalf of `caller`.
pub fn add_static(caller: Option<u128>, project_id: u128, deployment_id: u128) -> (out: (
    UploadState,
    Step,
))
    ensures
        (out.0@, out.1) == upload_begin(caller, project_id, deployment_id),
{
    match caller {
        Some(caller) => (
            UploadState::Project { caller, deployment_id },
            Step::Ask(Query::FindProject { id: project_id }),
        ),
        None => (UploadState::Done, Step::Done(Err(Failure::Unauthorized))),
    }
}

/// Whether assets can be uploaded for a deployment of the project.
fn check_uploadable(deployment: &Deployment, project_id: u128) -> (refusal: Option<Failure>)
    ensures
        refusal == upload_refusal(*deployment, project_id),
{
    match check_deployment(deployment, project_id) {
        Some(failure) => Some(failure),
        None => {
            if deployment.has_static {
                Some(Failure::AlreadyComplete)
            } else {
                None
            }
        },
    }
}

/// Takes up the header of a part.
fn on_part(target: Target, part: Part) -> (out: (UploadState, Step))
    ensures
        (out.0@, out.1) == after_part(target, part),
{
    match &part.name {
        None => (UploadState::Done, Step::Done(Err(Failure::Parse(ParseFailure::Incomplete)))),
        Some(name) => {
            if reads_as(name, "static") {
                if reads_as(&part.media_type, "application") && (reads_as(
                    &part.media_subtype,
                    "zip",
                ) || reads_as(&part.media_subtype, "x-zip-compressed")) {
                    (UploadState::Chunks { target, buffer: Vec::new() }, Step::Ask(Query::NextChunk))
                } else {
                    (UploadState::Done, Step::Done(Err(Failure::UnsupportedMedia)))
                }
            } else {
                (UploadState::Parts { target }, Step::Ask(Query::NextPart))
            }
        },
    }
}

/// Takes up the writes that remain.
fn on_pending(target: Target, pending: Vec<BlobWrite>) -> (out: (UploadState, Step))
    ensures
        (out.0@, out.1) == next_write(target, pending@),
{
    let mut pending = pending;
    match pending.pop() {
        Some(write) => (UploadState::Writes { target, pending }, Step::Ask(Query::PutBlob { write })),
        None => (
            UploadState::Mark { project_id: target.project_id },
            Step::Ask(Query::MarkComplete { id: target.deployment_id }),
        ),
    }
}

/// Continues an upload once the entries of its archive were read, or could
/// not be.
pub fn after_extract(target: Target, entries: Result<Vec<RawEntry>, Failure>) -> (out: (
    UploadState,
    Step,
))
    ensures
        follows_entries((out.0@, out.1), target, entries),
        upload_contained(out.0@),
        writes_within(out.1, target.project_id),
{
    match entries {
        Err(failure) => (UploadState::Done, Step::Done(Err(failure))),
        Ok(entries) => {
            let writes = plan_writes(target.project_id, entries);
            let ghost all = writes@;
            let out = on_pending(target, writes);
            proof {
                if all.len() > 0 {
                    assert(write_views(all.drop_last()) =~= write_views(all).drop_last());
                    assert(write_views(all).last() == all.last()@);
                    assert(all_within(all.drop_last(), target.project_id)) by {
                        assert forall|i: int| 0 <= i < all.drop_last().len() implies within_namespace(
                            #[trigger] all.drop_last()[i].key@,
                            target.project_id,
                        ) by {
                            assert(all.drop_last()[i] == all[i]);
                        }
                    }
                    assert(within_namespace(all[all.len() - 1].key@, target.project_id));
                }
            }
            out
        },
    }
}

/// Continues an upload with the answer to its last query.
///
/// The answer that ends the part named `static` has the archive opened and
/// read; what follows depends on what the archive holds, and
/// [`after_extract`] says how. Every other step is determined by the state
/// and the answer alone.
pub fn add_static_resume(state: UploadState, answer: Answer) -> (out: (UploadState, Step))
    ensures
        !ends_field(state@, answer) ==> (out.0@, out.1) == upload_next(state@, answer),
        ends_field(state@, answer) ==> follows_field((out.0@, out.1), state@),
        upload_contained(state@) ==> upload_contained(out.0@) && writes_within(
            out.1,
            upload_project(state@),
        ),
{
    match state {
        UploadState::Project { caller, deployment_id } => match answer {
            Answer::Project(Ok(project)) => match check_owner(&project, caller) {
                Some(failure) => (UploadState::Done, Step::Done(Err(failure))),
                None => (
                    UploadState::Deployment { project_id: project.id },
                    Step::Ask(Query::FindDeployment { id: deployment_id }),
                ),
            },
            Answer::Project(Err(error)) => (
                UploadState::Done,
                Step::Done(Err(Failure::Store(error))),
            ),
            _ => (UploadState::Done, Step::Done(Err(Failure::Protocol))),
        },
        UploadState::Deployment { project_id } => match answer {
            Answer::Deployment(Ok(deployment)) => match check_uploadable(&deployment, project_id) {
                Some(failure) => (UploadState::Done, Step::Done(Err(failure))),
                None => (
                    UploadState::Parts {
                        target: Target { project_id, deployment_id: deployment.id },
                    },
                    Step::Ask(Query::NextPart),
                ),
            },
            Answer::Deployment(Err(error)) => (
                UploadState::Done,
                Step::Done(Err(Failure::Store(error))),
            ),
            _ => (UploadState::Done, Step::Done(Err(Failure::Protocol))),
        },
        UploadState::Parts { target } => match answer {
            Answer::Part(Ok(Some(part))) => on_part(target, part),
            Answer::Part(_) => (UploadState::Done, Step::Done(Err(Failure::MissingField))),
            _ => (UploadState::Done, Step::Done(Err(Failure::Protocol))),
        },
        UploadState::Chunks { target, buffer } => match answer {
            Answer::Chunk(Ok(Some(data))) => {
                let mut buffer = buffer;
                let mut data = data;
                buffer.append(&mut data);
                (UploadState::Chunks { target, buffer }, Step::Ask(Query::NextChunk))
            },
            Answer::Chunk(Ok(None)) => {
                let ghost bytes = buffer@;
                let extracted = extract(buffer);
                let ghost outcome = extracted;
                let out = after_extract(target, extracted);
                proof {
                    match outcome {
                        Ok(entries) => {
                            assert(entries_of(entries@, bytes));
                            assert(follows_entries((out.0@, out.1), target, Ok(entries)));
                        },
                        Err(failure) => {
                            assert((out.0@, out.1) == (
                                UploadStateView::Done,
                                failed(Failure::InvalidArchive),
                            ));
                        },
                    }
                    assert(follows_archive((out.0@, out.1), target, bytes));
                }
                out
            },
            Answer::Chunk(Err(error)) => (
                UploadState::Done,
                Step::Done(Err(Failure::Parse(error))),
            ),
            _ => (UploadState::Done, Step::Done(Err(Failure::Protocol))),
        },
        UploadState::Writes { target, pending } => match answer {
            Answer::Stored(Ok(_)) => {
                let ghost all = pending@;
                let out = on_pending(target, pending);
                proof {
                    if all.len() > 0 && all_within(all, target.project_id) {
                        assert forall|i: int| 0 <= i < all.drop_last().len() implies within_namespace(
                            #[trigger] all.drop_last()[i].key@,
                            target.project_id,
                        ) by {
                            assert(all.drop_last()[i] == all[i]);
                        }
                        assert(within_namespace(all[all.len() - 1].key@, target.project_id));
                    }
                }
                out
            },
            Answer::Stored(Err(error)) => (
                UploadState::Done,
                Step::Done(Err(Failure::Blocking(error))),
            ),
            _ => (UploadState::Done, Step::Done(Err(Failure::Protocol))),
        },
        UploadState::Mark { project_id } => match answer {
            Answer::Marked(Ok(_)) => (
                UploadState::Notify,
                Step::Ask(Query::Publish { channel: Channel::Publish, project_id }),
            ),
            Answer::Marked(Err(error)) => (
                UploadState::Done,
                Step::Done(Err(Failure::Store(error))),
            ),
            _ => (UploadState::Done, Step::Done(Err(Failure::Protocol))),
        },
        UploadState::Notify => match answer {
            Answer::Published(Ok(_)) => (UploadState::Done, Step::Done(Ok(Reply::Success))),
            Answer::Published(Err(text)) => (
                UploadState::Done,
                Step::Done(Err(Failure::Channel(text))),
            ),
            _ => (UploadState::Done, Step::Done(Err(Failure::Protocol))),
        },
        UploadState::Done => (UploadState::Done, Step::Done(Err(Failure::Protocol))),
    }
}

} // verus!
