#![allow(dead_code, unused_imports)]
use api::errors::{BlockingFailure, DatabaseErrorKind, Failure, ParseFailure, StoreError};
use api::ident::{id_to_string, Timestamp};
use api::json::{JsonKind, JsonValue};
use api::models::{Deployment, Handler, Project, Route};
use api::protocol::{
    Answer, BlobWrite, Bundle, Channel, Part, Query, ReadResponse, Reply, Step,
};
use api::reader::{list_resume, read_resume, ListState, ReadState};

/// A store, a blob store and a channel in memory, for the operations to run
/// against.
struct World_reader {
    projects: Vec<Project>,
    deployments: Vec<Deployment>,
    handlers: Vec<Handler>,
    routes: Vec<Route>,
    blobs: Vec<BlobWrite>,
    published: Vec<(String, String)>,
    parts: Vec<(Part, Vec<Vec<u8>>)>,
    chunks: Vec<Vec<u8>>,
    asked: Vec<String>,
    fail_blob_at: Option<usize>,
}

fn world_reader() -> World_reader {
    World_reader {
        projects: vec![],
        deployments: vec![],
        handlers: vec![],
        routes: vec![],
        blobs: vec![],
        published: vec![],
        parts: vec![],
        chunks: vec![],
        asked: vec![],
        fail_blob_at: None,
    }
}

fn duplicate_reader() -> StoreError {
    StoreError::Database {
        kind: DatabaseErrorKind::UniqueViolation,
        message: "duplicate key value violates unique constraint".to_string(),
    }
}

fn serve_reader(world: &mut World_reader, query: Query) -> Answer {
    match query {
        Query::FindProject { id } => {
            world.asked.push("FindProject".to_string());
            Answer::Project(
                world.projects.iter().find(|p| p.id == id).cloned().ok_or(StoreError::NotFound),
            )
        }
        Query::FindDeployments { project_id } => {
            world.asked.push("FindDeployments".to_string());
            Answer::Deployments(Ok(world
                .deployments
                .iter()
                .filter(|d| d.project_id == project_id)
                .cloned()
                .collect()))
        }
        Query::FindDeployment { id } => {
            world.asked.push("FindDeployment".to_string());
            Answer::Deployment(
                world.deployments.iter().find(|d| d.id == id).cloned().ok_or(StoreError::NotFound),
            )
        }
        Query::FindDeploymentByHash { project_id, hash } => {
            world.asked.push("FindDeploymentByHash".to_string());
            Answer::Lookup(Ok(world
                .deployments
                .iter()
                .find(|d| d.project_id == project_id && d.hash == hash)
                .cloned()))
        }
        Query::InsertBundle { bundle } => {
            world.asked.push("InsertBundle".to_string());
            let taken = world.deployments.iter().any(|d| {
                d.id == bundle.deployment.id
                    || (d.project_id == bundle.deployment.project_id
                        && d.hash == bundle.deployment.hash)
            });
            if taken {
                Answer::Inserted(Err(duplicate_reader()))
            } else {
                world.deployments.push(bundle.deployment);
                world.handlers.extend(bundle.handlers);
                world.routes.extend(bundle.routes);
                Answer::Inserted(Ok(()))
            }
        }
        Query::FindRoutes { deployment_id } => {
            world.asked.push("FindRoutes".to_string());
            Answer::Routes(Ok(world
                .routes
                .iter()
                .filter(|r| r.deployment_id == deployment_id)
                .cloned()
                .collect()))
        }
        Query::FindHandlers { deployment_id } => {
            world.asked.push("FindHandlers".to_string());
            Answer::Handlers(Ok(world
                .handlers
                .iter()
                .filter(|h| h.deployment_id == deployment_id)
                .cloned()
                .collect()))
        }
        Query::DeleteHandler { id } => {
            world.asked.push(format!("DeleteHandler {}", id));
            let before = world.handlers.len();
            world.handlers.retain(|h| h.id != id);
            Answer::Deleted(Ok(before - world.handlers.len()))
        }
        Query::DeleteRoute { id } => {
            world.asked.push(format!("DeleteRoute {}", id));
            let before = world.routes.len();
            world.routes.retain(|r| r.id != id);
            Answer::Deleted(Ok(before - world.routes.len()))
        }
        Query::DeleteDeployment { id } => {
            world.asked.push(format!("DeleteDeployment {}", id));
            let before = world.deployments.len();
            world.deployments.retain(|d| d.id != id);
            Answer::Deleted(Ok(before - world.deployments.len()))
        }
        Query::MarkComplete { id } => {
            world.asked.push("MarkComplete".to_string());
            let mut changed = 0;
            for d in world.deployments.iter_mut() {
                if d.id == id {
                    d.mark_has_static();
                    changed += 1;
                }
            }
            Answer::Marked(Ok(changed))
        }
        Query::NextPart => {
            world.asked.push("NextPart".to_string());
            if world.parts.is_empty() {
                Answer::Part(Ok(None))
            } else {
                let (part, chunks) = world.parts.remove(0);
                world.chunks = chunks;
                Answer::Part(Ok(Some(part)))
            }
        }
        Query::NextChunk => {
            world.asked.push("NextChunk".to_string());
            if world.chunks.is_empty() {
                Answer::Chunk(Ok(None))
            } else {
                Answer::Chunk(Ok(Some(world.chunks.remove(0))))
            }
        }
        Query::PutBlob { write } => {
            world.asked.push(format!("PutBlob {}", write.key));
            if world.fail_blob_at == Some(world.blobs.len()) {
                Answer::Stored(Err(BlockingFailure::Error { text: "bucket is gone".to_string() }))
            } else {
                world.blobs.retain(|b| b.key != write.key);
                world.blobs.push(write);
                Answer::Stored(Ok(()))
            }
        }
        Query::Publish { channel, project_id } => {
            world.asked.push("Publish".to_string());
            world.published.push((channel.name(), id_to_string(project_id)));
            Answer::Published(Ok(()))
        }
    }
}

fn project_reader(id: u128, user_id: u128) -> Project {
    Project {
        id,
        user_id,
        name: "site".to_string(),
        description: "a site".to_string(),
        created_at: Timestamp { secs: 1, nanos: 0 },
        updated_at: None,
    }
}

fn deployment_reader(id: u128, project_id: u128, hash: &str, has_static: bool) -> Deployment {
    Deployment {
        id,
        project_id,
        version: "v1".to_string(),
        hash: hash.to_string(),
        has_static,
        published_at: Timestamp { secs: 2, nanos: 0 },
    }
}

fn handler_reader(id: u128, deployment_id: u128, name: &str) -> Handler {
    Handler {
        id,
        deployment_id,
        name: name.to_string(),
        query_parameters: None,
        headers: None,
        path_parameters: None,
        body: None,
        logic: JsonValue { kind: JsonKind::Object, text: "{}".to_string() },
    }
}

fn route_reader(id: u128, deployment_id: u128, path: &str) -> Route {
    Route {
        id,
        deployment_id,
        path: path.to_string(),
        methods: vec!["GET".to_string()],
        handler: "home".to_string(),
    }
}

fn read_all_reader(
    world: &mut World_reader,
    caller: Option<u128>,
    project_id: u128,
    deployment_id: u128,
) -> Result<Reply, Failure> {
    let (mut state, mut step) = api::reader::read(caller, project_id, deployment_id);
    loop {
        match step {
            Step::Done(outcome) => return outcome,
            Step::Ask(query) => {
                let answer = serve_reader(world, query);
                let next = read_resume(state, answer);
                state = next.0;
                step = next.1;
            }
        }
    }
}

fn list_all_reader(
    world: &mut World_reader,
    caller: Option<u128>,
    project_id: u128,
) -> Result<Reply, Failure> {
    let (mut state, mut step) = api::reader::list(caller, project_id);
    loop {
        match step {
            Step::Done(outcome) => return outcome,
            Step::Ask(query) => {
                let answer = serve_reader(world, query);
                let next = list_resume(state, answer);
                state = next.0;
                step = next.1;
            }
        }
    }
}

fn populated_reader() -> World_reader {
    let mut world = world_reader();
    world.projects.push(project_reader(1, 10));
    world.projects.push(project_reader(2, 20));
    world.deployments.push(deployment_reader(100, 1, "aa", true));
    world.deployments.push(deployment_reader(101, 1, "bb", false));
    world.deployments.push(deployment_reader(200, 2, "aa", true));
    world.handlers.push(handler_reader(1000, 100, "home"));
    world.handlers.push(handler_reader(1001, 100, "about"));
    world.handlers.push(handler_reader(2000, 200, "other"));
    world.routes.push(route_reader(3000, 100, "/"));
    world.routes.push(route_reader(3001, 200, "/x"));
    world
}

#[test]
fn reading_before_completion_fails_as_not_yet_complete() {
    let mut world = populated_reader();
    let reply = read_all_reader(&mut world, Some(10), 1, 101);
    assert_eq!(reply, Err(Failure::NotComplete));
    assert_eq!(world.asked, vec!["FindProject", "FindDeployment"]);
}

#[test]
fn reading_after_completion_returns_the_deployment_with_its_children() {
    let mut world = populated_reader();
    let reply = read_all_reader(&mut world, Some(10), 1, 100);
    assert_eq!(
        reply,
        Ok(Reply::Read(ReadResponse {
            deployment: deployment_reader(100, 1, "aa", true),
            routes: vec![route_reader(3000, 100, "/")],
            handlers: vec![handler_reader(1000, 100, "home"), handler_reader(1001, 100, "about")],
        }))
    );
    assert_eq!(world.asked, vec!["FindProject", "FindDeployment", "FindRoutes", "FindHandlers"]);
}

#[test]
fn reading_becomes_possible_once_the_deployment_is_marked() {
    let mut world = populated_reader();
    assert_eq!(read_all_reader(&mut world, Some(10), 1, 101), Err(Failure::NotComplete));
    serve_reader(&mut world, Query::MarkComplete { id: 101 });
    let reply = read_all_reader(&mut world, Some(10), 1, 101);
    assert_eq!(
        reply,
        Ok(Reply::Read(ReadResponse {
            deployment: deployment_reader(101, 1, "bb", true),
            routes: vec![],
            handlers: vec![],
        }))
    );
}

#[test]
fn reading_a_deployment_of_another_project_is_not_found() {
    let mut world = populated_reader();
    let reply = read_all_reader(&mut world, Some(10), 1, 200);
    assert_eq!(reply, Err(Failure::DeploymentNotFound));
}

#[test]
fn reading_a_missing_deployment_is_not_found() {
    let mut world = populated_reader();
    let reply = read_all_reader(&mut world, Some(10), 1, 999);
    assert_eq!(reply, Err(Failure::Store(StoreError::NotFound)));
}

#[test]
fn reading_needs_the_owner() {
    let mut world = populated_reader();
    assert_eq!(read_all_reader(&mut world, Some(20), 1, 100), Err(Failure::Forbidden));
    assert_eq!(read_all_reader(&mut world, None, 1, 100), Err(Failure::Unauthorized));
}

#[test]
fn store_failures_end_a_read() {
    let broken = StoreError::Unavailable { text: "pool timed out".to_string() };
    let (_, step) = read_resume(
        ReadState::Routes { deployment: deployment_reader(100, 1, "aa", true) },
        Answer::Routes(Err(broken.clone())),
    );
    assert_eq!(step, Step::Done(Err(Failure::Store(broken.clone()))));
    let (_, step) = read_resume(
        ReadState::Handlers { deployment: deployment_reader(100, 1, "aa", true), routes: vec![] },
        Answer::Handlers(Err(broken.clone())),
    );
    assert_eq!(step, Step::Done(Err(Failure::Store(broken))));
    let (state, step) = read_resume(ReadState::Done, Answer::Routes(Ok(vec![])));
    assert_eq!((state, step), (ReadState::Done, Step::Done(Err(Failure::Protocol))));
}

#[test]
fn listing_returns_the_projects_deployments() {
    let mut world = populated_reader();
    let reply = list_all_reader(&mut world, Some(10), 1);
    assert_eq!(
        reply,
        Ok(Reply::Deployments(vec![
            deployment_reader(100, 1, "aa", true),
            deployment_reader(101, 1, "bb", false)
        ]))
    );
    assert_eq!(world.asked, vec!["FindProject", "FindDeployments"]);
}

#[test]
fn listing_needs_the_owner() {
    let mut world = populated_reader();
    assert_eq!(list_all_reader(&mut world, Some(10), 2), Err(Failure::Forbidden));
    assert_eq!(list_all_reader(&mut world, None, 2), Err(Failure::Unauthorized));
    assert_eq!(list_all_reader(&mut world, Some(10), 3), Err(Failure::Store(StoreError::NotFound)));
    let (state, step) = list_resume(ListState::Deployments, Answer::Deleted(Ok(0)));
    assert_eq!((state, step), (ListState::Done, Step::Done(Err(Failure::Protocol))));
}
