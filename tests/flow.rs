use std::collections::HashMap;
use vibe_api::flow::{Action, Event, Exchange, Reply, RequestParts, WriteMode};

type Store = HashMap<(String, String), String>;

fn request(method: &str, path: &str, refresh: Option<&str>) -> RequestParts {
    RequestParts {
        method: method.to_string(),
        path: path.to_string(),
        headers: vec![("accept".to_string(), "*/*".to_string())],
        body: String::new(),
        refresh: refresh.map(|r| r.to_string()),
    }
}

fn write(store: &mut Store, key: (String, String), mode: WriteMode, schema: String) {
    match mode {
        WriteMode::Replace => {
            store.insert(key, schema);
        }
        WriteMode::IfAbsent => {
            store.entry(key).or_insert(schema);
        }
    }
}

/// Runs one request alone against `store`; the model answers `generated`.
/// Returns the reply and the user prompts that were sent.
fn serve(
    store: &mut Store,
    req: RequestParts,
    secret: Option<&str>,
    generated: Option<&str>,
) -> (Reply, Vec<String>) {
    let key = (req.path.clone(), req.method.clone());
    let (mut ex, mut action) = Exchange::begin(req, secret);
    let mut prompts = Vec::new();
    loop {
        let event = match action {
            Action::Lookup => Event::Found(store.get(&key).cloned()),
            Action::Generate { system: _, user } => {
                prompts.push(user);
                Event::Generated(generated.map(|g| g.to_string()))
            }
            Action::Store { mode, schema } => {
                write(store, key.clone(), mode, schema);
                Event::Stored
            }
            Action::Respond(reply) => return (reply, prompts),
        };
        action = ex.advance(event);
    }
}

fn key(path: &str, method: &str) -> (String, String) {
    (path.to_string(), method.to_string())
}

#[test]
fn first_request_stores_sanitized_schema() {
    let mut store = Store::new();
    let (reply, _) = serve(&mut store, request("GET", "/users", None), None, Some("```json\n{\"id\":1}\n```"));
    assert_eq!(reply.status, 200);
    assert!(reply.json);
    assert_eq!(reply.body, "{\"id\":1}");
    assert_eq!(store.len(), 1);
    assert_eq!(store[&key("/users", "GET")], "{\"id\":1}");
}

#[test]
fn stored_schema_goes_into_prompt() {
    let mut store = Store::new();
    store.insert(key("/users", "GET"), "{\"id\":0}".to_string());
    let (_, prompts) = serve(&mut store, request("GET", "/users", None), None, Some("{\"id\":5}"));
    assert_eq!(prompts.len(), 1);
    assert!(prompts[0].contains("schema that MUST be followed: {\"id\":0} You MUST"));
}

#[test]
fn unseen_key_prompt_has_no_constraint() {
    let mut store = Store::new();
    let (_, prompts) = serve(&mut store, request("GET", "/users", None), None, Some("{}"));
    assert!(!prompts[0].contains("MUST be followed"));
}

#[test]
fn cache_hits_do_not_write() {
    let mut store = Store::new();
    store.insert(key("/users", "GET"), "{\"id\":0}".to_string());
    let (first, _) = serve(&mut store, request("GET", "/users", None), None, Some("{\"id\":7}"));
    let (second, _) = serve(&mut store, request("GET", "/users", None), None, Some("{\"id\":8}"));
    assert_eq!(first.status, 200);
    assert_eq!(first.body, "{\"id\":7}");
    assert_eq!(second.body, "{\"id\":8}");
    assert_eq!(store.len(), 1);
    assert_eq!(store[&key("/users", "GET")], "{\"id\":0}");
}

#[test]
fn methods_are_separate_keys() {
    let mut store = Store::new();
    serve(&mut store, request("GET", "/users", None), None, Some("[1]"));
    serve(&mut store, request("POST", "/users", None), None, Some("{\"ok\":true}"));
    assert_eq!(store.len(), 2);
    assert_eq!(store[&key("/users", "POST")], "{\"ok\":true}");
}

#[test]
fn forced_refresh_replaces_schema() {
    let mut store = Store::new();
    store.insert(key("/users", "GET"), "{\"id\":0}".to_string());
    let (reply, prompts) = serve(&mut store, request("GET", "/users", Some("true")), Some("true"), Some("```\n{\"name\":\"a\"}\n```"));
    assert_eq!(reply.status, 200);
    assert_eq!(reply.body, "{\"name\":\"a\"}");
    assert_eq!(store[&key("/users", "GET")], "{\"name\":\"a\"}");
    assert!(!prompts[0].contains("MUST be followed"));
}

#[test]
fn refresh_with_other_secret_is_not_forced() {
    let mut store = Store::new();
    store.insert(key("/users", "GET"), "{\"id\":0}".to_string());
    serve(&mut store, request("GET", "/users", Some("s3cret")), Some("s3cret"), Some("{\"x\":1}"));
    assert_eq!(store[&key("/users", "GET")], "{\"id\":0}");
}

#[test]
fn forced_begin_skips_lookup() {
    let (_, action) = Exchange::begin(request("GET", "/a", Some("true")), Some("true"));
    assert!(matches!(action, Action::Generate { .. }));
    let (_, action) = Exchange::begin(request("GET", "/a", None), Some("true"));
    assert!(matches!(action, Action::Lookup));
}

#[test]
fn empty_generation_is_not_found_and_writes_nothing() {
    let mut store = Store::new();
    let (reply, _) = serve(&mut store, request("GET", "/users", None), None, None);
    assert_eq!(reply.status, 404);
    assert!(!reply.json);
    assert_eq!(reply.body, "No response text found");
    assert!(store.is_empty());
}

#[test]
fn generation_failure_is_server_error() {
    let (mut ex, _) = Exchange::begin(request("GET", "/a", None), None);
    ex.advance(Event::Found(None));
    match ex.advance(Event::GenerationFailed) {
        Action::Respond(r) => {
            assert_eq!(r.status, 500);
            assert_eq!(r.body, "Failed to get completion");
        }
        _ => panic!("expected a reply"),
    }
}

#[test]
fn lookup_failure_is_server_error() {
    let (mut ex, _) = Exchange::begin(request("GET", "/a", None), None);
    match ex.advance(Event::LookupFailed) {
        Action::Respond(r) => {
            assert_eq!(r.status, 500);
            assert_eq!(r.body, "Failed to read schema from DB");
        }
        _ => panic!("expected a reply"),
    }
}

#[test]
fn store_failure_is_server_error() {
    let (mut ex, _) = Exchange::begin(request("GET", "/a", None), None);
    ex.advance(Event::Found(None));
    let action = ex.advance(Event::Generated(Some("{}".to_string())));
    assert!(matches!(action, Action::Store { mode: WriteMode::IfAbsent, .. }));
    match ex.advance(Event::StoreFailed) {
        Action::Respond(r) => {
            assert_eq!(r.status, 500);
            assert_eq!(r.body, "Failed to insert schema into DB");
        }
        _ => panic!("expected a reply"),
    }
}

#[test]
fn unexpected_event_ends_request() {
    let (mut ex, _) = Exchange::begin(request("GET", "/a", None), None);
    match ex.advance(Event::Stored) {
        Action::Respond(r) => assert_eq!(r.status, 500),
        _ => panic!("expected a reply"),
    }
}

#[test]
fn concurrent_first_writers_leave_one_record() {
    let mut store = Store::new();
    let texts = ["{\"v\":1}", "{\"v\":2}", "{\"v\":3}"];
    let mut exchanges = Vec::new();
    for _ in 0..texts.len() {
        let (mut ex, action) = Exchange::begin(request("GET", "/race", None), None);
        assert!(matches!(action, Action::Lookup));
        ex.advance(Event::Found(store.get(&key("/race", "GET")).cloned()));
        exchanges.push(ex);
    }
    let mut replies = Vec::new();
    for (ex, text) in exchanges.iter_mut().zip(texts.iter()) {
        match ex.advance(Event::Generated(Some(text.to_string()))) {
            Action::Store { mode, schema } => {
                assert_eq!(mode, WriteMode::IfAbsent);
                write(&mut store, key("/race", "GET"), mode, schema);
            }
            _ => panic!("expected a write"),
        }
        match ex.advance(Event::Stored) {
            Action::Respond(r) => replies.push(r),
            _ => panic!("expected a reply"),
        }
    }
    assert!(replies.iter().all(|r| r.status == 200));
    assert_eq!(replies[2].body, "{\"v\":3}");
    assert_eq!(store.len(), 1);
    assert_eq!(store[&key("/race", "GET")], "{\"v\":1}");
}
