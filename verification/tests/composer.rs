#![allow(dead_code, unused_imports)]
use api::errors::{BlockingFailure, DatabaseErrorKind, Failure, ParseFailure, StoreError};
use api::ident::{id_to_string, Timestamp};
use api::json::{JsonKind, JsonValue};
use api::models::{Deployment, Handler, Project, Route};
use api::protocol::{
    Answer, BlobWrite, Bundle, Channel, Part, Query, ReadResponse, Reply, Step,
};
use api::composer::{compose, create, create_resume, CreateState};
use api::hasher::generate_hash;
use api::project_format::Handler as HandlerFormat;
use api::project_format::ProjectFormat;
use api::project_format::Route as RouteFormat;

/// A store, a blob store and a channel in memory, for the operations to run
/// against.
struct World_composer {
    projects: Vec<Project>,
    deployments: Vec<Deployment>,
    handlers: Vec<Handler>,
    routes: Vec<Route>,
    blobs: Vec<BlobWrite>,
    published: Vec<(String, String)>,
    parts: Vec<(Part, Vec<Vec<u8>>)>,
    chunks: Vec<Vec<u8>>,
    asked: Vec<String>,
    fail_blob_at: Option<usize>,
}

fn world_composer() -> World_composer {
    World_composer {
        projects: vec![],
        deployments: vec![],
        handlers: vec![],
        routes: vec![],
        blobs: vec![],
        published: vec![],
        parts: vec![],
        chunks: vec![],
        asked: vec![],
        fail_blob_at: None,
    }
}

fn duplicate_composer() -> StoreError {
    StoreError::Database {
        kind: DatabaseErrorKind::UniqueViolation,
        message: "duplicate key value violates unique constraint".to_string(),
    }
}

fn serve_composer(world: &mut World_composer, query: Query) -> Answer {
    match query {
        Query::FindProject { id } => {
            world.asked.push("FindProject".to_string());
            Answer::Project(
                world.projects.iter().find(|p| p.id == id).cloned().ok_or(StoreError::NotFound),
            )
        }
        Query::FindDeployments { project_id } => {
            world.asked.push("FindDeployments".to_string());
            Answer::Deployments(Ok(world
                .deployments
                .iter()
                .filter(|d| d.project_id == project_id)
                .cloned()
                .collect()))
        }
        Query::FindDeployment { id } => {
            world.asked.push("FindDeployment".to_string());
            Answer::Deployment(
                world.deployments.iter().find(|d| d.id == id).cloned().ok_or(StoreError::NotFound),
            )
        }
        Query::FindDeploymentByHash { project_id, hash } => {
            world.asked.push("FindDeploymentByHash".to_string());
            Answer::Lookup(Ok(world
                .deployments
                .iter()
                .find(|d| d.project_id == project_id && d.hash == hash)
                .cloned()))
        }
        Query::InsertBundle { bundle } => {
            world.asked.push("InsertBundle".to_string());
            let taken = world.deployments.iter().any(|d| {
                d.id == bundle.deployment.id
                    || (d.project_id == bundle.deployment.project_id
                        && d.hash == bundle.deployment.hash)
            });
            if taken {
                Answer::Inserted(Err(duplicate_composer()))
            } else {
                world.deployments.push(bundle.deployment);
                world.handlers.extend(bundle.handlers);
                world.routes.extend(bundle.routes);
                Answer::Inserted(Ok(()))
            }
        }
        Query::FindRoutes { deployment_id } => {
            world.asked.push("FindRoutes".to_string());
            Answer::Routes(Ok(world
                .routes
                .iter()
                .filter(|r| r.deployment_id == deployment_id)
                .cloned()
                .collect()))
        }
        Query::FindHandlers { deployment_id } => {
            world.asked.push("FindHandlers".to_string());
            Answer::Handlers(Ok(world
                .handlers
                .iter()
                .filter(|h| h.deployment_id == deployment_id)
                .cloned()
                .collect()))
        }
        Query::DeleteHandler { id } => {
            world.asked.push(format!("DeleteHandler {}", id));
            let before = world.handlers.len();
            world.handlers.retain(|h| h.id != id);
            Answer::Deleted(Ok(before - world.handlers.len()))
        }
        Query::DeleteRoute { id } => {
            world.asked.push(format!("DeleteRoute {}", id));
            let before = world.routes.len();
            world.routes.retain(|r| r.id != id);
            Answer::Deleted(Ok(before - world.routes.len()))
        }
        Query::DeleteDeployment { id } => {
            world.asked.push(format!("DeleteDeployment {}", id));
            let before = world.deployments.len();
            world.deployments.retain(|d| d.id != id);
            Answer::Deleted(Ok(before - world.deployments.len()))
        }
        Query::MarkComplete { id } => {
            world.asked.push("MarkComplete".to_string());
            let mut changed = 0;
            for d in world.deployments.iter_mut() {
                if d.id == id {
                    d.mark_has_static();
                    changed += 1;
                }
            }
            Answer::Marked(Ok(changed))
        }
        Query::NextPart => {
            world.asked.push("NextPart".to_string());
            if world.parts.is_empty() {
                Answer::Part(Ok(None))
            } else {
                let (part, chunks) = world.parts.remove(0);
                world.chunks = chunks;
                Answer::Part(Ok(Some(part)))
            }
        }
        Query::NextChunk => {
            world.asked.push("NextChunk".to_string());
            if world.chunks.is_empty() {
                Answer::Chunk(Ok(None))
            } else {
                Answer::Chunk(Ok(Some(world.chunks.remove(0))))
            }
        }
        Query::PutBlob { write } => {
            world.asked.push(format!("PutBlob {}", write.key));
            if world.fail_blob_at == Some(world.blobs.len()) {
                Answer::Stored(Err(BlockingFailure::Error { text: "bucket is gone".to_string() }))
            } else {
                world.blobs.retain(|b| b.key != write.key);
                world.blobs.push(write);
                Answer::Stored(Ok(()))
            }
        }
        Query::Publish { channel, project_id } => {
            world.asked.push("Publish".to_string());
            world.published.push((channel.name(), id_to_string(project_id)));
            Answer::Published(Ok(()))
        }
    }
}

fn project_composer(id: u128, user_id: u128) -> Project {
    Project {
        id,
        user_id,
        name: "site".to_string(),
        description: "a site".to_string(),
        created_at: Timestamp { secs: 1, nanos: 0 },
        updated_at: None,
    }
}

fn deployment_composer(id: u128, project_id: u128, hash: &str, has_static: bool) -> Deployment {
    Deployment {
        id,
        project_id,
        version: "v1".to_string(),
        hash: hash.to_string(),
        has_static,
        published_at: Timestamp { secs: 2, nanos: 0 },
    }
}

fn handler_composer(id: u128, deployment_id: u128, name: &str) -> Handler {
    Handler {
        id,
        deployment_id,
        name: name.to_string(),
        query_parameters: None,
        headers: None,
        path_parameters: None,
        body: None,
        logic: JsonValue { kind: JsonKind::Object, text: "{}".to_string() },
    }
}

fn route_composer(id: u128, deployment_id: u128, path: &str) -> Route {
    Route {
        id,
        deployment_id,
        path: path.to_string(),
        methods: vec!["GET".to_string()],
        handler: "home".to_string(),
    }
}

fn definition_composer() -> ProjectFormat {
    ProjectFormat {
        name: "v1".to_string(),
        version: String::new(),
        static_directory: String::new(),
        routes: vec![RouteFormat {
            path: "/".to_string(),
            methods: vec!["GET".to_string()],
            handler: "home".to_string(),
        }],
        handlers: vec![HandlerFormat {
            name: "home".to_string(),
            query_parameters: None,
            headers: Some(vec![]),
            path_parameters: None,
            body: None,
            logic: JsonValue { kind: JsonKind::Object, text: "{\"respond\":\"hi\"}".to_string() },
        }],
    }
}

const ENCODING_composer: &str = "{\"name\":\"v1\",\"version\":\"\",\"static_directory\":\"\",\"routes\":[{\"path\":\"/\",\"methods\":[\"GET\"],\"handler\":\"home\"}],\"handlers\":[{\"name\":\"home\",\"query_parameters\":null,\"headers\":[],\"path_parameters\":null,\"body\":null,\"logic\":{\"respond\":\"hi\"}}]}";

fn submit_composer(
    world: &mut World_composer,
    caller: Option<u128>,
    project_id: u128,
    definition: ProjectFormat,
    encoded: Result<String, String>,
) -> Result<Reply, Failure> {
    let (mut state, mut step) = create(caller, project_id, definition, encoded);
    loop {
        match step {
            Step::Done(outcome) => return outcome,
            Step::Ask(query) => {
                let answer = serve_composer(world, query);
                let next = create_resume(state, answer);
                state = next.0;
                step = next.1;
            }
        }
    }
}

#[test]
fn composing_makes_one_record_for_each_handler_and_route() {
    let mut definition = definition_composer();
    definition.version = "1.2".to_string();
    definition.routes.push(RouteFormat {
        path: "/about".to_string(),
        methods: vec!["GET".to_string(), "HEAD".to_string()],
        handler: "about".to_string(),
    });
    let bundle = compose(definition, "abc123".to_string(), 42);
    assert_eq!(bundle.deployment.project_id, 42);
    assert_eq!(bundle.deployment.version, "1.2");
    assert_eq!(bundle.deployment.hash, "abc123");
    assert!(!bundle.deployment.has_static);
    assert_eq!(bundle.handlers.len(), 1);
    assert_eq!(bundle.handlers[0].deployment_id, bundle.deployment.id);
    assert_eq!(bundle.handlers[0].name, "home");
    assert_eq!(bundle.handlers[0].headers, None);
    assert_eq!(bundle.routes.len(), 2);
    assert_eq!(bundle.routes[0].path, "/");
    assert_eq!(bundle.routes[1].path, "/about");
    assert_eq!(bundle.routes[1].methods, vec!["GET".to_string(), "HEAD".to_string()]);
    assert!(bundle.routes.iter().all(|r| r.deployment_id == bundle.deployment.id));
}

#[test]
fn first_submission_creates_the_deployment_with_its_children() {
    let mut world = world_composer();
    world.projects.push(project_composer(1, 10));
    let reply = submit_composer(&mut world, Some(10), 1, definition_composer(), Ok(ENCODING_composer.to_string()));
    let id = match reply {
        Ok(Reply::Created { id }) => id,
        other => panic!("unexpected outcome {:?}", other),
    };
    assert_eq!(world.deployments.len(), 1);
    assert_eq!(world.deployments[0].id, id);
    assert_eq!(world.deployments[0].project_id, 1);
    assert!(!world.deployments[0].has_static);
    assert_eq!(
        world.deployments[0].hash,
        generate_hash(Ok(ENCODING_composer.to_string())).unwrap()
    );
    assert_eq!(world.handlers.len(), 1);
    assert_eq!(world.handlers[0].deployment_id, id);
    assert_eq!(world.routes.len(), 1);
    assert_eq!(world.routes[0].deployment_id, id);
    assert_eq!(world.asked, vec!["FindProject", "FindDeploymentByHash", "InsertBundle"]);
    assert!(world.published.is_empty());
}

#[test]
fn resubmitting_the_same_definition_returns_the_same_identifier() {
    let mut world = world_composer();
    world.projects.push(project_composer(1, 10));
    let first = submit_composer(&mut world, Some(10), 1, definition_composer(), Ok(ENCODING_composer.to_string()));
    let rows = (world.deployments.clone(), world.handlers.clone(), world.routes.clone());
    world.asked.clear();
    let second = submit_composer(&mut world, Some(10), 1, definition_composer(), Ok(ENCODING_composer.to_string()));
    assert!(matches!(first, Ok(Reply::Created { .. })));
    assert_eq!(first, second);
    assert_eq!((world.deployments, world.handlers, world.routes), rows);
    assert_eq!(world.asked, vec!["FindProject", "FindDeploymentByHash"]);
}

#[test]
fn another_encoding_is_another_deployment() {
    let mut world = world_composer();
    world.projects.push(project_composer(1, 10));
    let spaced = ENCODING_composer.replace("\"name\":\"v1\"", "\"name\": \"v1\"");
    let first = submit_composer(&mut world, Some(10), 1, definition_composer(), Ok(ENCODING_composer.to_string()));
    let second = submit_composer(&mut world, Some(10), 1, definition_composer(), Ok(spaced));
    assert!(matches!(first, Ok(Reply::Created { .. })));
    assert!(matches!(second, Ok(Reply::Created { .. })));
    assert_ne!(first, second);
    assert_eq!(world.deployments.len(), 2);
    assert_eq!(world.handlers.len(), 2);
    assert_eq!(world.routes.len(), 2);
}

#[test]
fn same_definition_in_another_project_is_another_deployment() {
    let mut world = world_composer();
    world.projects.push(project_composer(1, 10));
    world.projects.push(project_composer(2, 10));
    let first = submit_composer(&mut world, Some(10), 1, definition_composer(), Ok(ENCODING_composer.to_string()));
    let second = submit_composer(&mut world, Some(10), 2, definition_composer(), Ok(ENCODING_composer.to_string()));
    assert_ne!(first, second);
    assert_eq!(world.deployments.len(), 2);
}

#[test]
fn creation_needs_an_authenticated_caller() {
    let mut world = world_composer();
    world.projects.push(project_composer(1, 10));
    let reply = submit_composer(&mut world, None, 1, definition_composer(), Ok(ENCODING_composer.to_string()));
    assert_eq!(reply, Err(Failure::Unauthorized));
    assert!(world.asked.is_empty());
}

#[test]
fn creation_needs_the_projects_owner() {
    let mut world = world_composer();
    world.projects.push(project_composer(1, 10));
    let reply = submit_composer(&mut world, Some(11), 1, definition_composer(), Ok(ENCODING_composer.to_string()));
    assert_eq!(reply, Err(Failure::Forbidden));
    assert_eq!(world.asked, vec!["FindProject"]);
    assert!(world.deployments.is_empty());
}

#[test]
fn creation_in_a_missing_project_is_not_found() {
    let mut world = world_composer();
    let reply = submit_composer(&mut world, Some(10), 1, definition_composer(), Ok(ENCODING_composer.to_string()));
    assert_eq!(reply, Err(Failure::Store(StoreError::NotFound)));
}

#[test]
fn encoding_failure_is_reported_after_the_owner_check() {
    let mut world = world_composer();
    world.projects.push(project_composer(1, 10));
    let stranger =
        submit_composer(&mut world, Some(11), 1, definition_composer(), Err("bad map key".to_string()));
    assert_eq!(stranger, Err(Failure::Forbidden));
    let owner = submit_composer(&mut world, Some(10), 1, definition_composer(), Err("bad map key".to_string()));
    assert_eq!(owner, Err(Failure::Encoding("bad map key".to_string())));
    assert!(world.deployments.is_empty());
}

#[test]
fn loser_of_a_race_returns_the_winners_deployment() {
    let hash = generate_hash(Ok(ENCODING_composer.to_string())).unwrap();
    let (state, step) = create(Some(10), 1, definition_composer(), Ok(ENCODING_composer.to_string()));
    assert_eq!(step, Step::Ask(Query::FindProject { id: 1 }));
    let (state, step) = create_resume(state, Answer::Project(Ok(project_composer(1, 10))));
    assert_eq!(
        step,
        Step::Ask(Query::FindDeploymentByHash { project_id: 1, hash: hash.clone() })
    );
    let (state, step) = create_resume(state, Answer::Lookup(Ok(None)));
    assert!(matches!(step, Step::Ask(Query::InsertBundle { .. })));
    let (state, step) = create_resume(state, Answer::Inserted(Err(duplicate_composer())));
    assert_eq!(
        step,
        Step::Ask(Query::FindDeploymentByHash { project_id: 1, hash: hash.clone() })
    );
    let winner = deployment_composer(99, 1, &hash, false);
    let (state, step) = create_resume(state, Answer::Lookup(Ok(Some(winner))));
    assert_eq!(step, Step::Done(Ok(Reply::Created { id: 99 })));
    assert_eq!(state, CreateState::Done);
}

#[test]
fn a_duplicate_of_something_else_is_reported() {
    let (state, _) = create(Some(10), 1, definition_composer(), Ok(ENCODING_composer.to_string()));
    let (state, _) = create_resume(state, Answer::Project(Ok(project_composer(1, 10))));
    let (state, _) = create_resume(state, Answer::Lookup(Ok(None)));
    let (state, _) = create_resume(state, Answer::Inserted(Err(duplicate_composer())));
    let (_, step) = create_resume(state, Answer::Lookup(Ok(None)));
    assert_eq!(step, Step::Done(Err(Failure::Store(duplicate_composer()))));
}

#[test]
fn a_refused_bundle_is_not_retried_for_other_reasons() {
    let (state, _) = create(Some(10), 1, definition_composer(), Ok(ENCODING_composer.to_string()));
    let (state, _) = create_resume(state, Answer::Project(Ok(project_composer(1, 10))));
    let (state, _) = create_resume(state, Answer::Lookup(Ok(None)));
    let broken = StoreError::Database {
        kind: DatabaseErrorKind::ForeignKeyViolation,
        message: "no such project".to_string(),
    };
    let (state, step) = create_resume(state, Answer::Inserted(Err(broken.clone())));
    assert_eq!(step, Step::Done(Err(Failure::Store(broken))));
    assert_eq!(state, CreateState::Done);
}

#[test]
fn an_answer_out_of_turn_ends_the_creation() {
    let (state, _) = create(Some(10), 1, definition_composer(), Ok(ENCODING_composer.to_string()));
    let (state, step) = create_resume(state, Answer::Marked(Ok(1)));
    assert_eq!(step, Step::Done(Err(Failure::Protocol)));
    let (_, step) = create_resume(state, Answer::Project(Ok(project_composer(1, 10))));
    assert_eq!(step, Step::Done(Err(Failure::Protocol)));
}

#[test]
fn a_bundle_under_a_taken_identifier_is_refused() {
    let mut world = world_composer();
    world.projects.push(project_composer(1, 10));
    let mut bundle = compose(definition_composer(), "abc".to_string(), 1);
    bundle.deployment.id = 77;
    world.deployments.push(deployment_composer(77, 1, "other", false));
    let answer = serve_composer(&mut world, Query::InsertBundle { bundle });
    assert_eq!(answer, Answer::Inserted(Err(duplicate_composer())));
    assert_eq!(world.deployments.len(), 1);
    assert!(world.handlers.is_empty());
    assert!(world.routes.is_empty());
}

#[test]
fn a_created_identifier_was_not_in_the_store() {
    let mut world = world_composer();
    world.projects.push(project_composer(1, 10));
    world.deployments.push(deployment_composer(77, 1, "other", true));
    let before: Vec<u128> = world.deployments.iter().map(|d| d.id).collect();
    let reply = submit_composer(&mut world, Some(10), 1, definition_composer(), Ok(ENCODING_composer.to_string()));
    match reply {
        Ok(Reply::Created { id }) => {
            assert!(!before.contains(&id));
            assert_eq!(world.deployments.iter().filter(|d| d.id == id).count(), 1);
        }
        other => panic!("unexpected outcome {:?}", other),
    }
}
