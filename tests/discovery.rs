use cruxim::discovery::{str_starts_with, versions_ok, versions_url_of, well_known_base_url_of, well_known_url_of};
use cruxim::{
    Continuation, Effect, Event, HomeserverConfig, HttpError, HttpRequest, HttpResponse, MatrixCore,
    Model, Status, ViewModel,
};

fn response(status: u16, body: &str) -> HttpResponse {
    HttpResponse { status, headers: Vec::new(), body: body.as_bytes().to_vec() }
}

fn only_request(effects: &[Effect]) -> (&HttpRequest, &Continuation) {
    assert_eq!(effects.len(), 1);
    match &effects[0] {
        Effect::Http(req, cont) => (req, cont),
        other => panic!("expected an http effect, got {other:?}"),
    }
}

fn configured(cfg: HomeserverConfig) -> Model {
    let app = MatrixCore;
    let mut model = Model::new();
    let effects = app.update(Event::HomeserverCfg(cfg), &mut model);
    assert!(effects.is_empty());
    model
}

#[test]
fn discover() {
    let app = MatrixCore;
    let homeserver_name = "m00nlit.dev";
    let mut model = configured(HomeserverConfig::ServerName(homeserver_name.to_owned()));

    let update = app.update(Event::Discover, &mut model);
    assert!(matches!(update[..], [Effect::Http(_, _)]));

    let update = app.update(
        Event::DiscoverResponse(Ok(response(
            200,
            r#"{"m.homeserver": {"base_url": "https://matrix.m00nlit.dev"}}"#,
        ))),
        &mut model,
    );
    let (req, cont) = only_request(&update);
    assert_eq!(req.url, "https://matrix.m00nlit.dev/_matrix/client/versions");
    assert_eq!(cont, &Continuation::Versions("https://matrix.m00nlit.dev".to_string()));
}

#[test]
fn discover_by_name_fetches_well_known() {
    let app = MatrixCore;
    let mut model = configured(HomeserverConfig::ServerName("m00nlit.dev".to_string()));
    let effects = app.update(Event::Discover, &mut model);
    let (req, cont) = only_request(&effects);
    assert_eq!(req.method, "GET");
    assert_eq!(req.url, "https://m00nlit.dev/.well-known/matrix/client");
    assert!(req.headers.is_empty());
    assert!(req.body.is_empty());
    assert_eq!(cont, &Continuation::WellKnown);
    assert_eq!(model.status, Status::Unset);
}

#[test]
fn discover_by_url_checks_versions() {
    let app = MatrixCore;
    let mut model = configured(HomeserverConfig::ServerUrl("matrix.example.org".to_string()));
    let effects = app.update(Event::Discover, &mut model);
    let (req, cont) = only_request(&effects);
    assert_eq!(req.method, "GET");
    assert_eq!(req.url, "https://matrix.example.org/_matrix/client/versions");
    assert_eq!(cont, &Continuation::Versions("matrix.example.org".to_string()));
}

#[test]
fn discover_default_then_transport_error() {
    let app = MatrixCore;
    let mut model = Model::new();
    let effects = app.update(Event::Discover, &mut model);
    let (req, cont) = only_request(&effects);
    assert_eq!(req.method, "GET");
    assert_eq!(req.url, "https://matrix.org/.well-known/matrix/client");
    let cont = cont.clone();

    let effects = app.resolve(cont, Err(HttpError::Io("connection refused".to_string())), &mut model);
    assert!(effects.is_empty());
    assert_eq!(model.status, Status::Unset);
    assert_eq!(model.homeserver_cfg, None);
    assert_eq!(model.homeserver, None);
}

#[test]
fn well_known_body_leads_to_versions() {
    let app = MatrixCore;
    let mut model = Model::new();
    let body = r#"{"m.homeserver":{"base_url":"https://X"}}"#;
    let effects = app.resolve(Continuation::WellKnown, Ok(response(200, body)), &mut model);
    let (req, _) = only_request(&effects);
    assert_eq!(req.url, "https://X/_matrix/client/versions");
}

#[test]
fn well_known_plain_http_base_url_is_kept() {
    let app = MatrixCore;
    let mut model = Model::new();
    let body = r#"{"m.homeserver":{"base_url":"http://localhost:8008"}}"#;
    let effects = app.update(Event::DiscoverResponse(Ok(response(200, body))), &mut model);
    let (req, _) = only_request(&effects);
    assert_eq!(req.url, "http://localhost:8008/_matrix/client/versions");
}

#[test]
fn well_known_failures_are_dropped() {
    let app = MatrixCore;
    let mut model = Model::new();
    let body = r#"{"m.homeserver":{"base_url":"https://X"}}"#;
    assert!(app.update(Event::DiscoverResponse(Ok(response(404, body))), &mut model).is_empty());
    assert!(app.update(Event::DiscoverResponse(Ok(response(200, "not json"))), &mut model).is_empty());
    assert!(app.update(Event::DiscoverResponse(Err(HttpError::Timeout)), &mut model).is_empty());
    assert_eq!(model.status, Status::Unset);
}

#[test]
fn versions_ok_validates() {
    let app = MatrixCore;
    let mut model = Model::new();
    let body = r#"{"versions":["v1.1","v1.2"]}"#;
    let effects = app.resolve(
        Continuation::Versions("https://X".to_string()),
        Ok(response(200, body)),
        &mut model,
    );
    assert_eq!(effects, vec![Effect::Render]);
    assert_eq!(model.status, Status::Info("Homeserver url valid".to_string()));
    assert_eq!(model.homeserver_cfg, Some(HomeserverConfig::ServerUrl("https://X".to_string())));
    assert!(model.homeserver.is_some());
}

fn assert_invalid(response: Result<HttpResponse, HttpError>) {
    let app = MatrixCore;
    let mut model = Model::new();
    let effects = app.resolve(Continuation::Versions("https://X".to_string()), response, &mut model);
    assert_eq!(effects, vec![Effect::Render]);
    assert_eq!(model.status, Status::Error("Invalid homeserver url".to_string()));
    assert!(model.homeserver.is_none());
}

#[test]
fn versions_not_found_is_invalid() {
    assert_invalid(Ok(response(404, r#"{"versions":["v1.1"]}"#)));
}

#[test]
fn versions_bad_body_is_invalid() {
    assert_invalid(Ok(response(200, r#"{"unexpected":true}"#)));
    assert_invalid(Ok(response(200, "")));
}

#[test]
fn versions_transport_error_is_invalid() {
    assert_invalid(Err(HttpError::Io("reset".to_string())));
    assert_invalid(Err(HttpError::Url("bad".to_string())));
    assert_invalid(Err(HttpError::Timeout));
}

#[test]
fn continuation_makes_events() {
    let app = MatrixCore;
    let res = response(200, "{}");
    assert_eq!(
        app.continue_with(Continuation::WellKnown, Ok(res.clone())),
        Some(Event::DiscoverResponse(Ok(res)))
    );
    assert_eq!(
        app.continue_with(Continuation::Versions("h".to_string()), Err(HttpError::Timeout)),
        Some(Event::Error("Invalid homeserver url".to_string()))
    );
    assert_eq!(
        app.continue_with(
            Continuation::Versions("h".to_string()),
            Ok(response(200, r#"{"versions":["r0.6.1"]}"#))
        ),
        Some(Event::HomeserverValid("h".to_string()))
    );
}

#[test]
fn error_event_sets_status_and_renders() {
    let app = MatrixCore;
    let mut model = Model::new();
    let effects = app.update(Event::Error("boom".to_string()), &mut model);
    assert_eq!(effects, vec![Effect::Render]);
    assert_eq!(model.status, Status::Error("boom".to_string()));
}

#[test]
fn validate_event_requests_versions() {
    let app = MatrixCore;
    let mut model = Model::new();
    let effects = app.update(Event::ValidateHomeserverUrl("h.example".to_string()), &mut model);
    let (req, cont) = only_request(&effects);
    assert_eq!(req.url, "https://h.example/_matrix/client/versions");
    assert_eq!(cont, &Continuation::Versions("h.example".to_string()));
}

#[test]
fn view_reflects_status_and_is_stable() {
    let app = MatrixCore;
    let mut model = Model::default();
    assert_eq!(app.view(&model), ViewModel { status: Status::Unset });
    app.update(Event::Error("Invalid homeserver url".to_string()), &mut model);
    let first = app.view(&model);
    let second = app.view(&model);
    assert_eq!(first.status, model.status);
    assert_eq!(first, second);
}

#[test]
fn url_building() {
    assert_eq!(well_known_url_of("a.b"), "https://a.b/.well-known/matrix/client");
    assert_eq!(versions_url_of("a.b"), "https://a.b/_matrix/client/versions");
    assert_eq!(versions_url_of("https://a.b"), "https://a.b/_matrix/client/versions");
    assert_eq!(versions_url_of("http://a.b"), "http://a.b/_matrix/client/versions");
    assert!(str_starts_with("https://x", "https://"));
    assert!(!str_starts_with("http", "https://"));
    assert!(!str_starts_with("httpx://", "https://"));
    assert!(str_starts_with("", ""));
}

#[test]
fn ruma_parsers() {
    let body = br#"{"m.homeserver":{"base_url":"https://matrix.example.org"}}"#.to_vec();
    assert_eq!(well_known_base_url_of(200, &body), Some("https://matrix.example.org".to_string()));
    assert_eq!(well_known_base_url_of(500, &body), None);
    assert_eq!(well_known_base_url_of(200, &b"[]".to_vec()), None);
    assert!(versions_ok(200, &br#"{"versions":["v1.0"]}"#.to_vec()));
    assert!(!versions_ok(201, &br#"{"versions":["v1.0"]}"#.to_vec()));
    assert!(!versions_ok(200, &b"{}".to_vec()));
}
