//! A model of the relational store.
//!
//! The store itself is a collaborator: nothing here reaches it. The model
//! says what it holds and what the queries of an operation do to it, so that
//! whole operations can be followed through it.

use crate::errors::StoreError;
use crate::models::deployment::Deployment;
use crate::models::handler::Handler;
use crate::models::route::Route;
use crate::protocol::{Answer, Bundle, Query};
use vstd::prelude::*;

verus! {

/// What the store holds.
pub struct Store {
    pub deployments: Seq<Deployment>,
    pub handlers: Seq<Handler>,
    pub routes: Seq<Route>,
}

/// The first of a list of records, if it has any.
pub open spec fn first_of<T>(rows: Seq<T>) -> Option<T> {
    if rows.len() > 0 {
        Some(rows[0])
    } else {
        None
    }
}

/// The deployments with an identifier.
pub open spec fn is_deployment(id: u128) -> spec_fn(Deployment) -> bool {
    |d: Deployment| d.id == id
}

/// The deployments of a project with a fingerprint.
pub open spec fn has_hash(project_id: u128, hash: Seq<char>) -> spec_fn(Deployment) -> bool {
    |d: Deployment| d.project_id == project_id && d.hash@ == hash
}

/// The handlers of a deployment.
pub open spec fn handler_of(deployment_id: u128) -> spec_fn(Handler) -> bool {
    |h: Handler| h.deployment_id == deployment_id
}

/// The routes of a deployment.
pub open spec fn route_of(deployment_id: u128) -> spec_fn(Route) -> bool {
    |r: Route| r.deployment_id == deployment_id
}

/// The handlers with another identifier.
pub open spec fn other_handler(id: u128) -> spec_fn(Handler) -> bool {
    |h: Handler| h.id != id
}

/// The routes with another identifier.
pub open spec fn other_route(id: u128) -> spec_fn(Route) -> bool {
    |r: Route| r.id != id
}

/// The deployments with another identifier.
pub open spec fn other_deployment(id: u128) -> spec_fn(Deployment) -> bool {
    |d: Deployment| d.id != id
}

/// A deployment record with its completion flag set.
pub open spec fn with_flag(deployment: Deployment) -> Deployment {
    Deployment { has_static: true, ..deployment }
}

impl Store {
    /// The deployment with an identifier.
    pub open spec fn deployment(self, id: u128) -> Option<Deployment> {
        first_of(self.deployments.filter(is_deployment(id)))
    }

    /// The deployment of a project with a fingerprint.
    pub open spec fn with_hash(self, project_id: u128, hash: Seq<char>) -> Option<Deployment> {
        first_of(self.deployments.filter(has_hash(project_id, hash)))
    }

    /// The handlers of a deployment.
    pub open spec fn handlers_of(self, deployment_id: u128) -> Seq<Handler> {
        self.handlers.filter(handler_of(deployment_id))
    }

    /// The routes of a deployment.
    pub open spec fn routes_of(self, deployment_id: u128) -> Seq<Route> {
        self.routes.filter(route_of(deployment_id))
    }

    /// Whether the store takes a bundle: a project holds no two deployments
    /// with the same fingerprint, and no two deployments have the same
    /// identifier.
    pub open spec fn accepts(self, bundle: Bundle) -> bool {
        &&& self.with_hash(bundle.deployment.project_id, bundle.deployment.hash@) is None
        &&& self.deployment(bundle.deployment.id) is None
    }

    /// The store with a bundle: the deployment with all of its handlers and
    /// routes.
    pub open spec fn insert(self, bundle: Bundle) -> Store {
        Store {
            deployments: self.deployments.push(bundle.deployment),
            handlers: self.handlers + bundle.handlers@,
            routes: self.routes + bundle.routes@,
        }
    }

    /// The store without the handler of an identifier.
    pub open spec fn without_handler(self, id: u128) -> Store {
        Store { handlers: self.handlers.filter(other_handler(id)), ..self }
    }

    /// The store without the route of an identifier.
    pub open spec fn without_route(self, id: u128) -> Store {
        Store { routes: self.routes.filter(other_route(id)), ..self }
    }

    /// The store without the deployment record of an identifier.
    pub open spec fn without_deployment(self, id: u128) -> Store {
        Store { deployments: self.deployments.filter(other_deployment(id)), ..self }
    }

    /// The store with the completion flag of a deployment set.
    pub open spec fn marked(self, id: u128) -> Store {
        Store {
            deployments: self.deployments.map_values(
                |d: Deployment|
                    if d.id == id {
                        with_flag(d)
                    } else {
                        d
                    },
            ),
            ..self
        }
    }

    /// What a query leaves of the store.
    pub open spec fn after(self, query: Query) -> Store {
        match query {
            Query::InsertBundle { bundle } => if self.accepts(bundle) {
                self.insert(bundle)
            } else {
                self
            },
            Query::DeleteHandler { id } => self.without_handler(id),
            Query::DeleteRoute { id } => self.without_route(id),
            Query::DeleteDeployment { id } => self.without_deployment(id),
            Query::MarkComplete { id } => self.marked(id),
            _ => self,
        }
    }

    /// The answer to the query for a deployment.
    pub open spec fn find(self, id: u128) -> Answer {
        match self.deployment(id) {
            Some(deployment) => Answer::Deployment(Ok(deployment)),
            None => Answer::Deployment(Err(StoreError::NotFound)),
        }
    }
}

/// After a bundle went in, the project holds a deployment with its
/// fingerprint: the one it held before, or else the bundle's.
pub proof fn lemma_insert_then_lookup(store: Store, bundle: Bundle)
    ensures
        store.insert(bundle).with_hash(bundle.deployment.project_id, bundle.deployment.hash@) == (
        match store.with_hash(bundle.deployment.project_id, bundle.deployment.hash@) {
            Some(d) => Some(d),
            None => Some(bundle.deployment),
        }),
{
    let project_id = bundle.deployment.project_id;
    let hash = bundle.deployment.hash@;
    let pred = has_hash(project_id, hash);
    let before = store.deployments;
    let after = before.push(bundle.deployment);
    assert(after.drop_last() =~= before);
    assert(after.filter(pred) == before.filter(pred).push(bundle.deployment)) by {
        reveal(Seq::filter);
    }
}

/// Whatever is in a filtered list is in the list and passes the filter.
pub proof fn lemma_filtered<T>(rows: Seq<T>, pred: spec_fn(T) -> bool, row: T)
    requires
        rows.filter(pred).contains(row),
    ensures
        rows.contains(row),
        pred(row),
{
    rows.lemma_filter_contains_rev(pred, row);
    let i = choose|i: int| 0 <= i < rows.filter(pred).len() && rows.filter(pred)[i] == row;
    rows.lemma_filter_pred(pred, i);
}

/// Whatever is in a list and passes a filter is in the filtered list.
pub proof fn lemma_kept<T>(rows: Seq<T>, pred: spec_fn(T) -> bool, row: T)
    requires
        rows.contains(row),
        pred(row),
    ensures
        rows.filter(pred).contains(row),
{
    let i = choose|i: int| 0 <= i < rows.len() && rows[i] == row;
    rows.lemma_filter_contains(pred, i);
}

/// Marking and looking up can be done in either order.
pub proof fn lemma_marked_lookup(rows: Seq<Deployment>, id: u128)
    ensures
        rows.map_values(
            |d: Deployment|
                if d.id == id {
                    with_flag(d)
                } else {
                    d
                },
        ).filter(is_deployment(id)) == rows.filter(is_deployment(id)).map_values(
            |d: Deployment| with_flag(d),
        ),
    decreases rows.len(),
{
    reveal(Seq::filter);
    let mark = |d: Deployment|
        if d.id == id {
            with_flag(d)
        } else {
            d
        };
    let flag = |d: Deployment| with_flag(d);
    if rows.len() == 0 {
        assert(rows.map_values(mark) =~= Seq::<Deployment>::empty());
        assert(rows.filter(is_deployment(id)).map_values(flag) =~= Seq::<Deployment>::empty());
    } else {
        lemma_marked_lookup(rows.drop_last(), id);
        assert(rows.map_values(mark).drop_last() =~= rows.drop_last().map_values(mark));
        let kept = rows.drop_last().filter(is_deployment(id));
        if rows.last().id == id {
            assert(kept.push(rows.last()).map_values(flag) =~= kept.map_values(flag).push(
                with_flag(rows.last()),
            ));
        }
    }
}

/// Marking a deployment complete sets its completion flag and changes
/// nothing else of it.
pub proof fn law_marking_sets_the_flag(store: Store, deployment: Deployment)
    requires
        store.deployment(deployment.id) == Some(deployment),
    ensures
        store.after(Query::MarkComplete { id: deployment.id }).deployment(deployment.id) == Some(
            with_flag(deployment),
        ),
        store.after(Query::MarkComplete { id: deployment.id }).handlers == store.handlers,
        store.after(Query::MarkComplete { id: deployment.id }).routes == store.routes,
{
    lemma_marked_lookup(store.deployments, deployment.id);
}

/// Marking is idempotent: marking a deployment that is marked changes
/// nothing.
pub proof fn law_marking_twice_is_marking_once(store: Store, id: u128)
    ensures
        store.marked(id).marked(id) == store.marked(id),
{
    assert(store.marked(id).marked(id).deployments =~= store.marked(id).deployments);
}

/// The completion flag never reverts: a deployment that is complete stays in
/// the store as it is, whatever is asked of the store, until its record is
/// deleted.
pub proof fn law_completion_never_reverts(store: Store, query: Query, deployment: Deployment)
    requires
        store.deployments.contains(deployment),
        deployment.has_static,
    ensures
        store.after(query).deployments.contains(deployment) || query == (Query::DeleteDeployment {
            id: deployment.id,
        }),
{
    let i = choose|i: int| 0 <= i < store.deployments.len() && store.deployments[i] == deployment;
    match query {
        Query::InsertBundle { bundle } => {
            assert(store.deployments.push(bundle.deployment)[i] == deployment);
        },
        Query::DeleteDeployment { id } => {
            if id != deployment.id {
                lemma_kept(store.deployments, other_deployment(id), deployment);
            }
        },
        Query::MarkComplete { id } => {
            assert(with_flag(deployment) == deployment);
            assert(store.marked(id).deployments[i] == deployment);
        },
        _ => {},
    }
}

/// No query makes a project hold two deployments with one fingerprint: where
/// the store holds at most one for every project and fingerprint, it does so
/// afterwards.
pub proof fn law_fingerprints_stay_unique(store: Store, query: Query, project_id: u128, hash: Seq<char>)
    requires
        store.deployments.filter(has_hash(project_id, hash)).len() <= 1,
    ensures
        store.after(query).deployments.filter(has_hash(project_id, hash)).len() <= 1,
{
    let pred = has_hash(project_id, hash);
    match query {
        Query::InsertBundle { bundle } => {
            if store.accepts(bundle) {
                let after = store.deployments.push(bundle.deployment);
                assert(after.drop_last() =~= store.deployments);
                reveal(Seq::filter);
            }
        },
        Query::DeleteDeployment { id } => {
            lemma_filters_commute(store.deployments, other_deployment(id), pred);
            store.deployments.filter(pred).lemma_filter_len(other_deployment(id));
        },
        Query::MarkComplete { id } => {
            lemma_marked_keeps_hashes(store.deployments, id, project_id, hash);
        },
        _ => {},
    }
}

/// After a bundle went in, its deployment is found by its identifier, where
/// the identifier was new.
pub proof fn lemma_insert_then_find(store: Store, bundle: Bundle)
    requires
        store.deployment(bundle.deployment.id) is None,
    ensures
        store.insert(bundle).deployment(bundle.deployment.id) == Some(bundle.deployment),
{
    let pred = is_deployment(bundle.deployment.id);
    let before = store.deployments;
    let after = before.push(bundle.deployment);
    assert(after.drop_last() =~= before);
    assert(after.filter(pred) == before.filter(pred).push(bundle.deployment)) by {
        reveal(Seq::filter);
    }
}

/// A bundle that goes in changes nothing of what is found under another
/// identifier or another fingerprint.
pub proof fn lemma_insert_leaves_others(
    store: Store,
    bundle: Bundle,
    id: u128,
    project_id: u128,
    hash: Seq<char>,
)
    ensures
        id != bundle.deployment.id ==> store.insert(bundle).deployment(id) == store.deployment(id),
        !(project_id == bundle.deployment.project_id && hash == bundle.deployment.hash@)
            ==> store.insert(bundle).with_hash(project_id, hash) == store.with_hash(
            project_id,
            hash,
        ),
{
    let before = store.deployments;
    let after = before.push(bundle.deployment);
    assert(after.drop_last() =~= before);
    assert(id != bundle.deployment.id ==> after.filter(is_deployment(id)) == before.filter(
        is_deployment(id),
    )) by {
        reveal(Seq::filter);
    }
    assert(!(project_id == bundle.deployment.project_id && hash == bundle.deployment.hash@)
        ==> after.filter(has_hash(project_id, hash)) == before.filter(
        has_hash(project_id, hash),
    )) by {
        reveal(Seq::filter);
    }
}

/// No query makes two deployments have one identifier: where the store
/// holds at most one deployment for every identifier, it does so
/// afterwards.
pub proof fn law_identifiers_stay_unique(store: Store, query: Query, id: u128)
    requires
        store.deployments.filter(is_deployment(id)).len() <= 1,
    ensures
        store.after(query).deployments.filter(is_deployment(id)).len() <= 1,
{
    let pred = is_deployment(id);
    match query {
        Query::InsertBundle { bundle } => {
            if store.accepts(bundle) {
                let after = store.deployments.push(bundle.deployment);
                assert(after.drop_last() =~= store.deployments);
                reveal(Seq::filter);
            }
        },
        Query::DeleteDeployment { id: gone } => {
            lemma_filters_commute(store.deployments, other_deployment(gone), pred);
            store.deployments.filter(pred).lemma_filter_len(other_deployment(gone));
        },
        Query::MarkComplete { id: marked } => {
            lemma_marked_keeps_identifiers(store.deployments, marked, id);
        },
        _ => {},
    }
}

/// Marking changes no identifier: as many deployments have an identifier
/// afterwards as before.
pub proof fn lemma_marked_keeps_identifiers(rows: Seq<Deployment>, marked: u128, id: u128)
    ensures
        rows.map_values(
            |d: Deployment|
                if d.id == marked {
                    with_flag(d)
                } else {
                    d
                },
        ).filter(is_deployment(id)).len() == rows.filter(is_deployment(id)).len(),
    decreases rows.len(),
{
    reveal(Seq::filter);
    let mark = |d: Deployment|
        if d.id == marked {
            with_flag(d)
        } else {
            d
        };
    if rows.len() > 0 {
        lemma_marked_keeps_identifiers(rows.drop_last(), marked, id);
        assert(rows.map_values(mark).drop_last() =~= rows.drop_last().map_values(mark));
    }
}

/// Two filters can be applied in either order.
pub proof fn lemma_filters_commute<T>(rows: Seq<T>, first: spec_fn(T) -> bool, second: spec_fn(
    T,
) -> bool)
    ensures
        rows.filter(first).filter(second) == rows.filter(second).filter(first),
    decreases rows.len(),
{
    reveal(Seq::filter);
    if rows.len() > 0 {
        lemma_filters_commute(rows.drop_last(), first, second);
        let rest = rows.drop_last();
        let last = rows.last();
        if first(last) {
            assert(rest.filter(first).push(last).drop_last() =~= rest.filter(first));
        }
        if second(last) {
            assert(rest.filter(second).push(last).drop_last() =~= rest.filter(second));
        }
    }
}

/// Marking changes no fingerprint: as many deployments of a project have a
/// fingerprint afterwards as before.
pub proof fn lemma_marked_keeps_hashes(
    rows: Seq<Deployment>,
    id: u128,
    project_id: u128,
    hash: Seq<char>,
)
    ensures
        rows.map_values(
            |d: Deployment|
                if d.id == id {
                    with_flag(d)
                } else {
                    d
                },
        ).filter(has_hash(project_id, hash)).len() == rows.filter(has_hash(project_id, hash)).len(),
    decreases rows.len(),
{
    reveal(Seq::filter);
    let mark = |d: Deployment|
        if d.id == id {
            with_flag(d)
        } else {
            d
        };
    if rows.len() > 0 {
        lemma_marked_keeps_hashes(rows.drop_last(), id, project_id, hash);
        assert(rows.map_values(mark).drop_last() =~= rows.drop_last().map_values(mark));
    }
}

} // verus!
