//! What the operations achieve, stated over a model of the store and proved.
//!
//! An operation is followed through the store: each query is answered as
//! the model answers it and leaves of the store what the model says.

use crate::composer::{composed, create_next, CreateState};
use crate::errors::{Failure, StoreError};
use crate::hasher::{fingerprint, lemma_fingerprint_distinct, sha256};
use crate::ingestor::{upload_next, UploadStateView};
use crate::models::deployment::Deployment;
use crate::models::handler::Handler;
use crate::models::project::Project;
use crate::models::route::Route;
use crate::project_format::ProjectFormat;
use crate::protocol::{failed, replied, Answer, Bundle, Query, ReadResponse, Reply, Step};
use crate::reader::{read_next, ReadState};
use crate::store::{
    handler_of, is_deployment, law_marking_sets_the_flag, lemma_filtered,
    lemma_insert_leaves_others, lemma_insert_then_find, lemma_insert_then_lookup, lemma_kept,
    other_deployment, other_handler, other_route, route_of, with_flag, Store,
};
use crate::teardown::{delete_next, drop_handlers, drop_routes, DeleteState};
use vstd::prelude::*;

verus! {

/// What comes of a creation that has reached the store with the records it
/// composed: the store afterwards, and the outcome. `refusal` is what the
/// store says when it refuses a bundle for a duplicate.
pub open spec fn creation(
    store: Store,
    project: Project,
    caller: u128,
    bundle: Bundle,
    refusal: StoreError,
) -> (Store, Step) {
    let start = CreateState::Project { caller, prepared: Ok(bundle) };
    let looked = create_next(start, Answer::Project(Ok(project)));
    match looked.1 {
        Step::Ask(Query::FindDeploymentByHash { project_id, hash }) => {
            let found = create_next(
                looked.0,
                Answer::Lookup(Ok(store.with_hash(project_id, hash@))),
            );
            match found.1 {
                Step::Ask(Query::InsertBundle { bundle }) => {
                    if store.accepts(bundle) {
                        (
                            store.insert(bundle),
                            create_next(found.0, Answer::Inserted(Ok(()))).1,
                        )
                    } else {
                        let refused = create_next(found.0, Answer::Inserted(Err(refusal)));
                        match refused.1 {
                            Step::Ask(Query::FindDeploymentByHash { project_id, hash }) => (
                                store,
                                create_next(
                                    refused.0,
                                    Answer::Lookup(Ok(store.with_hash(project_id, hash@))),
                                ).1,
                            ),
                            step => (store, step),
                        }
                    }
                },
                step => (store, step),
            }
        },
        step => (store, step),
    }
}

/// What comes of reading a deployment from the store, where the store
/// answers the queries for its routes and handlers with `routes` and
/// `handlers`.
pub open spec fn reading(
    store: Store,
    project: Project,
    caller: u128,
    deployment_id: u128,
    routes: Vec<Route>,
    handlers: Vec<Handler>,
) -> Step {
    let start = ReadState::Project { caller, deployment_id };
    let asked = read_next(start, Answer::Project(Ok(project)));
    match asked.1 {
        Step::Ask(Query::FindDeployment { id }) => {
            let found = read_next(asked.0, store.find(id));
            match found.1 {
                Step::Ask(Query::FindRoutes { .. }) => {
                    let listed = read_next(found.0, Answer::Routes(Ok(routes)));
                    match listed.1 {
                        Step::Ask(Query::FindHandlers { .. }) => read_next(
                            listed.0,
                            Answer::Handlers(Ok(handlers)),
                        ).1,
                        step => step,
                    }
                },
                step => step,
            }
        },
        step => step,
    }
}

/// Whether a step ends a creation with the identifier of a deployment.
pub open spec fn returns_identifier(step: Step) -> bool {
    step matches Step::Done(Ok(Reply::Created { .. }))
}

/// Resubmitting a definition is idempotent: where two submissions to a
/// project have canonical encodings that are the same bytes and the first
/// returns an identifier, the second returns that identifier and leaves the
/// store as the first left it. No deployment, handler or route is stored
/// twice. The first does return an identifier where the one that was drawn
/// for it is new to the store.
pub proof fn law_resubmission_returns_the_same_deployment(
    store: Store,
    project: Project,
    encoding: Seq<u8>,
    first_definition: ProjectFormat,
    first: Bundle,
    second_definition: ProjectFormat,
    second: Bundle,
    refusal: StoreError,
)
    requires
        composed(first, first_definition, fingerprint(encoding), project.id),
        composed(second, second_definition, fingerprint(encoding), project.id),
    ensures
        ({
            let one = creation(store, project, project.user_id, first, refusal);
            let two = creation(one.0, project, project.user_id, second, refusal);
            &&& store.deployment(first.deployment.id) is None ==> returns_identifier(one.1)
            &&& one.1 matches Step::Done(Ok(Reply::Created { id })) ==> {
                &&& two.1 == one.1
                &&& two.0 == one.0
                &&& one.0.with_hash(project.id, fingerprint(encoding)) matches Some(d) && d.id == id
            }
        }),
{
    lemma_insert_then_lookup(store, first);
}

/// A created identifier is new: where a creation stores its bundle, no
/// deployment had the bundle's identifier before, the bundle's deployment is
/// found under it afterwards, and it is the identifier that is returned.
pub proof fn law_created_identifier_is_new(
    store: Store,
    project: Project,
    bundle: Bundle,
    refusal: StoreError,
)
    ensures
        ({
            let one = creation(store, project, project.user_id, bundle, refusal);
            one.0 == store || {
                &&& store.deployment(bundle.deployment.id) is None
                &&& one.0 == store.insert(bundle)
                &&& one.0.deployment(bundle.deployment.id) == Some(bundle.deployment)
                &&& one.1 == replied(Reply::Created { id: bundle.deployment.id })
            }
        }),
{
    if store.deployment(bundle.deployment.id) is None {
        lemma_insert_then_find(store, bundle);
    }
}

/// Submissions with different fingerprints are created independently. Two
/// canonical encodings with different digests have different fingerprints;
/// where the identifiers that were drawn for them differ, what the second
/// submission returns does not depend on whether the first was made; and
/// where the project holds neither fingerprint and the identifiers are new,
/// each stores its own bundle and returns its own identifier, whatever else
/// the two definitions have in common.
pub proof fn law_distinct_fingerprints_are_separate_deployments(
    store: Store,
    project: Project,
    first_encoding: Seq<u8>,
    first_definition: ProjectFormat,
    first: Bundle,
    second_encoding: Seq<u8>,
    second_definition: ProjectFormat,
    second: Bundle,
    refusal: StoreError,
)
    requires
        sha256(first_encoding) != sha256(second_encoding),
        composed(first, first_definition, fingerprint(first_encoding), project.id),
        composed(second, second_definition, fingerprint(second_encoding), project.id),
        first.deployment.id != second.deployment.id,
    ensures
        fingerprint(first_encoding) != fingerprint(second_encoding),
        ({
            let one = creation(store, project, project.user_id, first, refusal);
            let two = creation(one.0, project, project.user_id, second, refusal);
            let alone = creation(store, project, project.user_id, second, refusal);
            &&& two.1 == alone.1
            &&& store.with_hash(project.id, fingerprint(first_encoding)) is None
                && store.with_hash(project.id, fingerprint(second_encoding)) is None
                && store.deployment(first.deployment.id) is None && store.deployment(
                second.deployment.id,
            ) is None ==> {
                &&& one.1 == replied(Reply::Created { id: first.deployment.id })
                &&& two.1 == replied(Reply::Created { id: second.deployment.id })
                &&& two.0 == store.insert(first).insert(second)
            }
        }),
{
    lemma_fingerprint_distinct(first_encoding, second_encoding);
    lemma_insert_leaves_others(
        store,
        first,
        second.deployment.id,
        project.id,
        second.deployment.hash@,
    );
}

/// A deployment is read only when its assets are complete: before that the
/// read fails as not yet complete, and after it the read returns the record
/// with the routes and handlers that the store holds for it.
pub proof fn law_read_needs_completion(
    store: Store,
    project: Project,
    deployment: Deployment,
    routes: Vec<Route>,
    handlers: Vec<Handler>,
)
    requires
        store.deployment(deployment.id) == Some(deployment),
        deployment.project_id == project.id,
        routes@ == store.routes_of(deployment.id),
        handlers@ == store.handlers_of(deployment.id),
    ensures
        !deployment.has_static ==> reading(
            store,
            project,
            project.user_id,
            deployment.id,
            routes,
            handlers,
        ) == failed(Failure::NotComplete),
        deployment.has_static ==> reading(
            store,
            project,
            project.user_id,
            deployment.id,
            routes,
            handlers,
        ) == replied(Reply::Read(ReadResponse { deployment, routes, handlers })),
        reading(
            store.after(Query::MarkComplete { id: deployment.id }),
            project,
            project.user_id,
            deployment.id,
            routes,
            handlers,
        ) == replied(
            Reply::Read(ReadResponse { deployment: with_flag(deployment), routes, handlers }),
        ),
{
    law_marking_sets_the_flag(store, deployment);
}

/// A deployment takes its assets once: when it was marked complete, another
/// upload for it is refused as soon as the deployment is found, before any
/// part of the upload is read and before anything is written.
pub proof fn law_second_upload_is_refused(store: Store, project: Project, deployment: Deployment)
    requires
        store.deployment(deployment.id) == Some(deployment),
        deployment.project_id == project.id,
    ensures
        ({
            let complete = store.after(Query::MarkComplete { id: deployment.id });
            let asked = upload_next(
                UploadStateView::Project { caller: project.user_id, deployment_id: deployment.id },
                Answer::Project(Ok(project)),
            );
            &&& asked.1 == Step::Ask(Query::FindDeployment { id: deployment.id })
            &&& upload_next(asked.0, complete.find(deployment.id)) == (
                UploadStateView::Done,
                failed(Failure::AlreadyComplete),
            )
        }),
{
    law_marking_sets_the_flag(store, deployment);
}

/// The store without the handlers of a list, from a position on.
pub open spec fn without_handlers(store: Store, handlers: Seq<Handler>, from: int) -> Store
    decreases handlers.len() - from,
{
    if 0 <= from < handlers.len() {
        without_handlers(store.without_handler(handlers[from].id), handlers, from + 1)
    } else {
        store
    }
}

/// The store without the routes of a list, from a position on.
pub open spec fn without_routes(store: Store, routes: Seq<Route>, from: int) -> Store
    decreases routes.len() - from,
{
    if 0 <= from < routes.len() {
        without_routes(store.without_route(routes[from].id), routes, from + 1)
    } else {
        store
    }
}

/// What comes of a removal from a step on, where the store carries out what
/// it is asked, answers the query for the routes with `routes`, and the
/// broadcast can be made: the store afterwards, and the last step.
pub open spec fn removal(store: Store, state: DeleteState, step: Step, routes: Vec<Route>, fuel: nat)
    -> (Store, Step)
    decreases fuel,
{
    match step {
        Step::Ask(query) => if fuel == 0 {
            (store, step)
        } else {
            let answer = match query {
                Query::FindRoutes { .. } => Answer::Routes(Ok(routes)),
                Query::Publish { .. } => Answer::Published(Ok(())),
                _ => Answer::Deleted(Ok(1)),
            };
            let next = delete_next(state, answer);
            removal(store.after(query), next.0, next.1, routes, (fuel - 1) as nat)
        },
        Step::Done(_) => (store, step),
    }
}

/// What comes of deleting a deployment from the store, where the store
/// answers the queries for its handlers and routes with `handlers` and
/// `routes`.
pub open spec fn deletion(
    store: Store,
    project: Project,
    caller: u128,
    deployment_id: u128,
    handlers: Vec<Handler>,
    routes: Vec<Route>,
) -> (Store, Step) {
    let asked = delete_next(
        DeleteState::Project { caller, deployment_id },
        Answer::Project(Ok(project)),
    );
    match asked.1 {
        Step::Ask(Query::FindDeployment { id }) => {
            let found = delete_next(asked.0, store.find(id));
            match found.1 {
                Step::Ask(Query::FindHandlers { .. }) => {
                    let begun = delete_next(found.0, Answer::Handlers(Ok(handlers)));
                    removal(
                        store,
                        begun.0,
                        begun.1,
                        routes,
                        (handlers.len() + routes.len() + 3) as nat,
                    )
                },
                step => (store, step),
            }
        },
        step => (store, step),
    }
}

/// The handlers are removed one after the other, and then the routes are
/// asked for.
proof fn lemma_handlers_go(
    store: Store,
    deployment: Deployment,
    handlers: Vec<Handler>,
    next: int,
    routes: Vec<Route>,
    fuel: nat,
)
    requires
        0 <= next <= handlers.len(),
        fuel >= handlers.len() - next,
    ensures
        removal(
            store,
            drop_handlers(deployment, handlers, next).0,
            drop_handlers(deployment, handlers, next).1,
            routes,
            fuel,
        ) == removal(
            without_handlers(store, handlers@, next),
            DeleteState::Routes { deployment },
            Step::Ask(Query::FindRoutes { deployment_id: deployment.id }),
            routes,
            (fuel - (handlers.len() - next)) as nat,
        ),
    decreases handlers.len() - next,
{
    if next < handlers.len() {
        let id = handlers[next].id;
        let state = DeleteState::DropHandlers { deployment, handlers, next: next as usize };
        assert(delete_next(state, Answer::Deleted(Ok(1))) == drop_handlers(
            deployment,
            handlers,
            next + 1,
        ));
        lemma_handlers_go(
            store.without_handler(id),
            deployment,
            handlers,
            next + 1,
            routes,
            (fuel - 1) as nat,
        );
    }
}

/// The routes are removed one after the other, and then the deployment
/// record.
proof fn lemma_routes_go(
    store: Store,
    deployment: Deployment,
    routes: Vec<Route>,
    next: int,
    fuel: nat,
)
    requires
        0 <= next <= routes.len(),
        fuel >= routes.len() - next,
    ensures
        removal(
            store,
            drop_routes(deployment, routes, next).0,
            drop_routes(deployment, routes, next).1,
            routes,
            fuel,
        ) == removal(
            without_routes(store, routes@, next),
            DeleteState::DropDeployment { project_id: deployment.project_id },
            Step::Ask(Query::DeleteDeployment { id: deployment.id }),
            routes,
            (fuel - (routes.len() - next)) as nat,
        ),
    decreases routes.len() - next,
{
    if next < routes.len() {
        let id = routes[next].id;
        let state = DeleteState::DropRoutes { deployment, routes, next: next as usize };
        assert(delete_next(state, Answer::Deleted(Ok(1))) == drop_routes(
            deployment,
            routes,
            next + 1,
        ));
        lemma_routes_go(store.without_route(id), deployment, routes, next + 1, (fuel - 1) as nat);
    }
}

/// Removing handlers touches nothing but handlers, and leaves none with an
/// identifier that was removed.
proof fn lemma_without_handlers(store: Store, handlers: Seq<Handler>, from: int)
    requires
        0 <= from <= handlers.len(),
    ensures
        without_handlers(store, handlers, from).deployments == store.deployments,
        without_handlers(store, handlers, from).routes == store.routes,
        forall|h: Handler| #[trigger]
            without_handlers(store, handlers, from).handlers.contains(h) ==> store.handlers.contains(
                h,
            ) && forall|j: int| from <= j < handlers.len() ==> h.id != handlers[j].id,
    decreases handlers.len() - from,
{
    if from < handlers.len() {
        let id = handlers[from].id;
        let less = store.without_handler(id);
        lemma_without_handlers(less, handlers, from + 1);
        assert forall|h: Handler| #[trigger]
            without_handlers(store, handlers, from).handlers.contains(h) implies store.handlers.contains(
            h,
        ) && forall|j: int| from <= j < handlers.len() ==> h.id != handlers[j].id by {
            assert(less.handlers.contains(h));
            lemma_filtered(store.handlers, other_handler(id), h);
        }
    }
}

/// Removing routes touches nothing but routes, and leaves none with an
/// identifier that was removed.
proof fn lemma_without_routes(store: Store, routes: Seq<Route>, from: int)
    requires
        0 <= from <= routes.len(),
    ensures
        without_routes(store, routes, from).deployments == store.deployments,
        without_routes(store, routes, from).handlers == store.handlers,
        forall|r: Route| #[trigger]
            without_routes(store, routes, from).routes.contains(r) ==> store.routes.contains(r)
                && forall|j: int| from <= j < routes.len() ==> r.id != routes[j].id,
    decreases routes.len() - from,
{
    if from < routes.len() {
        let id = routes[from].id;
        let less = store.without_route(id);
        lemma_without_routes(less, routes, from + 1);
        assert forall|r: Route| #[trigger]
            without_routes(store, routes, from).routes.contains(r) implies store.routes.contains(r)
            && forall|j: int| from <= j < routes.len() ==> r.id != routes[j].id by {
            assert(less.routes.contains(r));
            lemma_filtered(store.routes, other_route(id), r);
        }
    }
}

/// Deleting a deployment removes all of its handlers and routes and then its
/// record: where the store carries out what it is asked, the operation
/// succeeds and leaves no handler and no route of the deployment and no
/// record with its identifier, so that a read of the deployment afterwards
/// fails as not found.
pub proof fn law_delete_removes_deployment_and_children(
    store: Store,
    project: Project,
    deployment: Deployment,
    handlers: Vec<Handler>,
    routes: Vec<Route>,
)
    requires
        store.deployment(deployment.id) == Some(deployment),
        deployment.project_id == project.id,
        handlers@ == store.handlers_of(deployment.id),
        routes@ == store.routes_of(deployment.id),
    ensures
        ({
            let end = deletion(store, project, project.user_id, deployment.id, handlers, routes);
            &&& end.1 == replied(Reply::Success)
            &&& end.0.handlers_of(deployment.id).len() == 0
            &&& end.0.routes_of(deployment.id).len() == 0
            &&& end.0.deployment(deployment.id) is None
            &&& reading(end.0, project, project.user_id, deployment.id, routes, handlers) == failed(
                Failure::Store(StoreError::NotFound),
            )
        }),
{
    let id = deployment.id;
    let fuel = (handlers.len() + routes.len() + 3) as nat;
    let begun = drop_handlers(deployment, handlers, 0);
    lemma_handlers_go(store, deployment, handlers, 0, routes, fuel);
    let s1 = without_handlers(store, handlers@, 0);
    lemma_without_handlers(store, handlers@, 0);
    let listed = delete_next(DeleteState::Routes { deployment }, Answer::Routes(Ok(routes)));
    assert(listed == drop_routes(deployment, routes, 0));
    let fuel1 = (routes.len() + 2) as nat;
    assert(removal(
        s1,
        DeleteState::Routes { deployment },
        Step::Ask(Query::FindRoutes { deployment_id: id }),
        routes,
        (routes.len() + 3) as nat,
    ) == removal(s1, listed.0, listed.1, routes, fuel1));
    lemma_routes_go(s1, deployment, routes, 0, fuel1);
    let s2 = without_routes(s1, routes@, 0);
    lemma_without_routes(s1, routes@, 0);
    let s3 = s2.without_deployment(id);
    let dropped = DeleteState::DropDeployment { project_id: deployment.project_id };
    let told = delete_next(dropped, Answer::Deleted(Ok(1)));
    assert(removal(
        s2,
        dropped,
        Step::Ask(Query::DeleteDeployment { id }),
        routes,
        2,
    ) == removal(s3, told.0, told.1, routes, 1));
    let ended = delete_next(told.0, Answer::Published(Ok(())));
    assert(removal(s3, told.0, told.1, routes, 1) == removal(s3, ended.0, ended.1, routes, 0));
    assert(deletion(store, project, project.user_id, id, handlers, routes) == (
        s3,
        replied(Reply::Success),
    ));

    assert(s3.handlers_of(id).len() == 0) by {
        let left = s3.handlers_of(id);
        if left.len() > 0 {
            let h = left[0];
            assert(left.contains(h));
            lemma_filtered(s3.handlers, handler_of(id), h);
            assert(s1.handlers.contains(h));
            lemma_kept(store.handlers, handler_of(id), h);
            let j = choose|j: int| 0 <= j < handlers@.len() && handlers@[j] == h;
            assert(h.id != handlers@[j].id);
        }
    }
    assert(s3.routes_of(id).len() == 0) by {
        let left = s3.routes_of(id);
        if left.len() > 0 {
            let r = left[0];
            assert(left.contains(r));
            lemma_filtered(s3.routes, route_of(id), r);
            assert(s2.routes.contains(r));
            lemma_kept(store.routes, route_of(id), r);
            let j = choose|j: int| 0 <= j < routes@.len() && routes@[j] == r;
            assert(r.id != routes@[j].id);
        }
    }
    assert(s3.deployment(id) is None) by {
        let left = s3.deployments.filter(is_deployment(id));
        if left.len() > 0 {
            let d = left[0];
            assert(left.contains(d));
            lemma_filtered(s3.deployments, is_deployment(id), d);
            lemma_filtered(s2.deployments, other_deployment(id), d);
        }
    }
}

} // verus!
