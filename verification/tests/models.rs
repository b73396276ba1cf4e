use api::ident::Timestamp;
use api::json::{JsonKind, JsonValue};
use api::models::{Deployment, Handler, Project, ProjectMessage, Route};
use api::project_format::Handler as HandlerFormat;
use api::project_format::Route as RouteFormat;

fn json(kind: JsonKind, text: &str) -> JsonValue {
    JsonValue { kind, text: text.to_string() }
}

fn names(items: &[&str]) -> Vec<String> {
    items.iter().map(|s| s.to_string()).collect()
}

fn submitted_handler() -> HandlerFormat {
    HandlerFormat {
        name: "home".to_string(),
        query_parameters: Some(names(&["page"])),
        headers: Some(vec![]),
        path_parameters: None,
        body: Some(json(JsonKind::Object, "{\"type\":\"object\"}")),
        logic: json(JsonKind::Array, "[1,2]"),
    }
}

#[test]
fn new_deployment_is_not_complete() {
    let at = Timestamp { secs: 1_600_000_000, nanos: 5 };
    let d = Deployment::with_id(7, "v1".to_string(), "abc".to_string(), 3, at);
    assert_eq!(
        d,
        Deployment {
            id: 7,
            project_id: 3,
            version: "v1".to_string(),
            hash: "abc".to_string(),
            has_static: false,
            published_at: at,
        }
    );
}

#[test]
fn created_deployment_keeps_what_it_was_given() {
    let d = Deployment::create("v2".to_string(), "ff".to_string(), 11);
    assert_eq!(d.project_id, 11);
    assert_eq!(d.version, "v2");
    assert_eq!(d.hash, "ff");
    assert!(!d.has_static);
    assert!(d.published_at.secs > 1_500_000_000);
}

#[test]
fn created_deployments_get_different_identifiers() {
    let one = Deployment::create("v".to_string(), "h".to_string(), 1);
    let two = Deployment::create("v".to_string(), "h".to_string(), 1);
    assert_ne!(one.id, two.id);
}

#[test]
fn marking_sets_the_flag_and_nothing_else() {
    let at = Timestamp { secs: 1, nanos: 2 };
    let mut d = Deployment::with_id(7, "v1".to_string(), "abc".to_string(), 3, at);
    d.mark_has_static();
    assert!(d.has_static);
    assert_eq!((d.id, d.project_id, d.published_at), (7, 3, at));
    assert_eq!(d.version, "v1");
    assert_eq!(d.hash, "abc");
}

#[test]
fn marking_twice_is_marking_once() {
    let at = Timestamp { secs: 1, nanos: 2 };
    let mut d = Deployment::with_id(7, "v1".to_string(), "abc".to_string(), 3, at);
    d.mark_has_static();
    let once = d.clone();
    d.mark_has_static();
    assert_eq!(d, once);
}

#[test]
fn empty_lists_are_stored_as_absent() {
    let row = Handler::with_id(5, submitted_handler(), 9);
    assert_eq!(row.id, 5);
    assert_eq!(row.deployment_id, 9);
    assert_eq!(row.name, "home");
    assert_eq!(row.query_parameters, Some(names(&["page"])));
    assert_eq!(row.headers, None);
    assert_eq!(row.path_parameters, None);
}

#[test]
fn object_body_is_kept() {
    let row = Handler::with_id(5, submitted_handler(), 9);
    assert_eq!(row.body, Some(json(JsonKind::Object, "{\"type\":\"object\"}")));
    assert_eq!(row.logic, json(JsonKind::Array, "[1,2]"));
}

#[test]
fn body_that_is_no_object_is_stored_as_absent() {
    for kind in [
        JsonKind::Null,
        JsonKind::Bool,
        JsonKind::Number,
        JsonKind::String,
        JsonKind::Array,
    ] {
        let mut handler = submitted_handler();
        handler.body = Some(json(kind, "x"));
        assert_eq!(Handler::with_id(1, handler, 2).body, None);
    }
    let mut handler = submitted_handler();
    handler.body = None;
    assert_eq!(Handler::with_id(1, handler, 2).body, None);
}

#[test]
fn handler_of_a_deployment_refers_to_it() {
    let d = Deployment::with_id(
        77,
        "v".to_string(),
        "h".to_string(),
        1,
        Timestamp { secs: 0, nanos: 0 },
    );
    let handler = d.add_handler(submitted_handler());
    assert_eq!(handler.deployment_id, 77);
    assert_eq!(handler.headers, None);
    let route = d.add_route(RouteFormat {
        path: "/".to_string(),
        methods: names(&["GET", "POST"]),
        handler: "home".to_string(),
    });
    assert_eq!(route.deployment_id, 77);
    assert_eq!(route.path, "/");
    assert_eq!(route.methods, names(&["GET", "POST"]));
    assert_eq!(route.handler, "home");
}

#[test]
fn route_record_keeps_the_submitted_route() {
    let route = Route::with_id(
        4,
        RouteFormat { path: "/a".to_string(), methods: names(&["GET"]), handler: "h".to_string() },
        8,
    );
    assert_eq!(
        route,
        Route {
            id: 4,
            deployment_id: 8,
            path: "/a".to_string(),
            methods: names(&["GET"]),
            handler: "h".to_string(),
        }
    );
    let created = Route::create(
        RouteFormat { path: "/b".to_string(), methods: vec![], handler: "g".to_string() },
        8,
    );
    assert_eq!(created.deployment_id, 8);
    assert_eq!(created.path, "/b");
}

#[test]
fn created_handler_is_normalized() {
    let row = Handler::create(submitted_handler(), 2);
    assert_eq!(row.deployment_id, 2);
    assert_eq!(row.headers, None);
    assert_eq!(row.query_parameters, Some(names(&["page"])));
}

#[test]
fn new_project_belongs_to_its_user() {
    let message = ProjectMessage {
        name: "site".to_string(),
        description: "my site".to_string(),
        updated_at: Some(Timestamp { secs: 9, nanos: 9 }),
    };
    let at = Timestamp { secs: 10, nanos: 0 };
    let p = Project::with_id(1, message.clone(), 2, at);
    assert_eq!(
        p,
        Project {
            id: 1,
            user_id: 2,
            name: "site".to_string(),
            description: "my site".to_string(),
            created_at: at,
            updated_at: None,
        }
    );
    let created = Project::create(message.clone(), 5);
    assert_eq!(created.user_id, 5);
    assert_eq!(created.name, "site");
    assert_eq!(created.updated_at, None);
    let changes = Project::update(message);
    assert_eq!(changes.name, "site");
    assert_eq!(changes.description, "my site");
    assert!(changes.updated_at.is_some());
}

#[test]
fn json_value_knows_whether_it_is_an_object() {
    assert!(json(JsonKind::Object, "{}").is_object());
    assert!(!json(JsonKind::Array, "[]").is_object());
    assert!(!json(JsonKind::Null, "null").is_object());
}
