use crate::discovery::{
    versions_accepted, versions_ok, versions_url, versions_url_of, well_known_base_url,
    well_known_base_url_of, well_known_url, well_known_url_of,
};
use crate::homeserver::{Homeserver, HomeserverConfig};
use crate::protocol::{HttpError, HttpRequest, HttpResponse, KeyValueOperation};
use vstd::prelude::*;

verus! {

/// The outcome shown to the user.
#[derive(Clone, Debug, PartialEq, Eq)]
pub enum Status {
    /// No outcome yet.
    Unset,
    Info(String),
    Error(String),
}

impl Default for Status {
    fn default() -> (s: Status)
        ensures
            s is Unset,
    {
        Status::Unset
    }
}

/// The state of the application, changed only by `MatrixCore::update`.
#[derive(Debug)]
pub struct Model {
    pub homeserver_cfg: Option<HomeserverConfig>,
    pub homeserver: Option<Homeserver>,
    pub user_name: String,
    pub status: Status,
}

impl Model {
    /// The model holds nothing yet.
    pub open spec fn is_empty(self) -> bool {
        &&& self.homeserver_cfg is None
        &&& self.homeserver is None
        &&& self.user_name@.len() == 0
        &&& self.status is Unset
    }

    /// An empty model.
    pub fn new() -> (m: Model)
        ensures
            m.is_empty(),
    {
        Model { homeserver_cfg: None, homeserver: None, user_name: String::new(), status: Status::Unset }
    }
}

impl Default for Model {
    fn default() -> (m: Model)
        ensures
            m.is_empty(),
    {
        Model::new()
    }
}

/// What the user sees.
#[derive(Clone, Debug, PartialEq, Eq)]
pub struct ViewModel {
    pub status: Status,
}

/// What to do with the response to an `Effect::Http` once the host has it.
#[derive(Clone, Debug, PartialEq, Eq)]
pub enum Continuation {
    /// The response is a client well-known document: hand it back as
    /// `Event::DiscoverResponse`.
    WellKnown,
    /// The response is the versions list of the homeserver at this URL.
    Versions(String),
}

/// A side effect that the host is asked to perform.
#[derive(Clone, Debug, PartialEq, Eq)]
pub enum Effect {
    /// Pull a fresh view.
    Render,
    /// Send the request, then hand the outcome to `MatrixCore::resolve` with
    /// the continuation.
    Http(HttpRequest, Continuation),
    KeyValue(KeyValueOperation),
}

/// What drives the engine.
#[derive(Debug, PartialEq, Eq)]
pub enum Event {
    HomeserverCfg(HomeserverConfig),
    Discover,
    DiscoverResponse(Result<HttpResponse, HttpError>),
    ValidateHomeserverUrl(String),
    /// The homeserver at this base URL answered the versions check: it is
    /// kept as the configuration and reported as an `Info` status.
    HomeserverValid(String),
    Error(String),
}

/// The domain looked up when no configuration is set.
pub open spec fn default_server_name() -> Seq<char> {
    "matrix.org"@
}

/// The status message of a successful versions check.
pub open spec fn valid_message() -> Seq<char> {
    "Homeserver url valid"@
}

/// The status message of a failed versions check.
pub open spec fn invalid_message() -> Seq<char> {
    "Invalid homeserver url"@
}

/// `req` is a plain GET of `url`: no headers, no body.
pub open spec fn is_get(req: HttpRequest, url: Seq<char>) -> bool {
    &&& req.method@ == "GET"@
    &&& req.url@ == url
    &&& req.headers@.len() == 0
    &&& req.body@.len() == 0
}

/// `e` fetches the client well-known document of the domain `name`.
pub open spec fn is_well_known_lookup(e: Effect, name: Seq<char>) -> bool {
    match e {
        Effect::Http(req, Continuation::WellKnown) => is_get(req, well_known_url(name)),
        _ => false,
    }
}

/// `e` runs the versions check of the homeserver at `url`.
pub open spec fn is_versions_check(e: Effect, url: Seq<char>) -> bool {
    match e {
        Effect::Http(req, Continuation::Versions(u)) => u@ == url && is_get(req, versions_url(url)),
        _ => false,
    }
}

/// What `Discover` emits from model `m`: one request, by the configuration
/// or, when none is set, by the domain `matrix.org`.
pub open spec fn discover_effects(m: Model, effects: Seq<Effect>) -> bool {
    &&& effects.len() == 1
    &&& match m.homeserver_cfg {
        Option::None => is_well_known_lookup(effects[0], default_server_name()),
        Option::Some(HomeserverConfig::ServerName(n)) => is_well_known_lookup(effects[0], n@),
        Option::Some(HomeserverConfig::ServerUrl(u)) => is_versions_check(effects[0], u@),
    }
}

/// `m2` is `m` with the status set to an error of message `msg`, and the one
/// effect asks for a render.
pub open spec fn failed(m: Model, m2: Model, effects: Seq<Effect>, msg: Seq<char>) -> bool {
    &&& m2.homeserver_cfg == m.homeserver_cfg
    &&& m2.homeserver == m.homeserver
    &&& m2.user_name == m.user_name
    &&& m2.status is Error
    &&& m2.status->Error_0@ == msg
    &&& effects == seq![Effect::Render]
}

/// `m2` keeps the homeserver at `url` as validated, with an `Info` status,
/// and the one effect asks for a render.
pub open spec fn validated(m: Model, m2: Model, effects: Seq<Effect>, url: String) -> bool {
    &&& m2.homeserver_cfg == Some(HomeserverConfig::ServerUrl(url))
    &&& m2.homeserver == Some(Homeserver {})
    &&& m2.user_name == m.user_name
    &&& m2.status is Info
    &&& m2.status->Info_0@ == valid_message()
    &&& effects == seq![Effect::Render]
}

/// Handling `event` in model `m` gives model `m2` and emits `effects`, in order.
pub open spec fn updated(event: Event, m: Model, m2: Model, effects: Seq<Effect>) -> bool {
    match event {
        Event::HomeserverCfg(cfg) => {
            &&& m2.homeserver_cfg == Some(cfg)
            &&& m2.homeserver == m.homeserver
            &&& m2.user_name == m.user_name
            &&& m2.status == m.status
            &&& effects.len() == 0
        },
        Event::Discover => m2 == m && discover_effects(m, effects),
        Event::DiscoverResponse(Err(_)) => m2 == m && effects.len() == 0,
        Event::DiscoverResponse(Ok(res)) => {
            &&& m2 == m
            &&& match well_known_base_url(res.status, res.body@) {
                Option::Some(u) => effects.len() == 1 && is_versions_check(effects[0], u),
                Option::None => effects.len() == 0,
            }
        },
        Event::ValidateHomeserverUrl(u) => m2 == m && effects.len() == 1 && is_versions_check(
            effects[0],
            u@,
        ),
        Event::HomeserverValid(u) => validated(m, m2, effects, u),
        Event::Error(msg) => failed(m, m2, effects, msg@),
    }
}

/// The response passes the versions check.
pub open spec fn accepts_versions(res: HttpResponse) -> bool {
    res.status == 200 && versions_accepted(res.status, res.body@)
}

/// The event that continuation `c` makes of `response`.
pub open spec fn continued(
    c: Continuation,
    response: Result<HttpResponse, HttpError>,
    r: Option<Event>,
) -> bool {
    match c {
        Continuation::WellKnown => r == Some(Event::DiscoverResponse(response)),
        Continuation::Versions(u) => match response {
            Ok(res) if accepts_versions(res) => r == Some(Event::HomeserverValid(u)),
            _ => r is Some && r->0 is Error && r->0->Error_0@ == invalid_message(),
        },
    }
}

/// Resolving continuation `c` with `response` in model `m` gives model `m2`
/// and emits `effects`.
pub open spec fn resolved(
    c: Continuation,
    response: Result<HttpResponse, HttpError>,
    m: Model,
    m2: Model,
    effects: Seq<Effect>,
) -> bool {
    match c {
        Continuation::WellKnown => updated(Event::DiscoverResponse(response), m, m2, effects),
        Continuation::Versions(u) => match response {
            Ok(res) if accepts_versions(res) => validated(m, m2, effects, u),
            _ => failed(m, m2, effects, invalid_message()),
        },
    }
}

/// A plain GET of `url`.
fn get(url: String) -> (r: HttpRequest)
    ensures
        is_get(r, url@),
{
    HttpRequest { method: String::from_str("GET"), url, headers: Vec::new(), body: Vec::new() }
}

/// The versions check of the homeserver at `url`.
fn versions_check(url: String) -> (e: Effect)
    ensures
        is_versions_check(e, url@),
{
    let req = get(versions_url_of(url.as_str()));
    Effect::Http(req, Continuation::Versions(url))
}

/// A render request, alone.
fn render() -> (r: Vec<Effect>)
    ensures
        r@ == seq![Effect::Render],
{
    let r = vec![Effect::Render];
    assert(r@ =~= seq![Effect::Render]);
    r
}

/// The update engine of the discovery flow.
#[derive(Clone, Copy, Debug, Default)]
pub struct MatrixCore;

impl MatrixCore {
    /// Handles `event`: changes `model` and returns the effects to perform,
    /// in order.
    pub fn update(&self, event: Event, model: &mut Model) -> (effects: Vec<Effect>)
        ensures
            updated(event, *old(model), *final(model), effects@),
    {
        match event {
            Event::HomeserverCfg(cfg) => {
                model.homeserver_cfg = Some(cfg);
                Vec::new()
            },
            Event::Discover => {
                let effect = match &model.homeserver_cfg {
                    Option::None => {
                        let name = String::from_str("matrix.org");
                        Effect::Http(get(well_known_url_of(name.as_str())), Continuation::WellKnown)
                    },
                    Option::Some(HomeserverConfig::ServerName(name)) => {
                        Effect::Http(get(well_known_url_of(name.as_str())), Continuation::WellKnown)
                    },
                    Option::Some(HomeserverConfig::ServerUrl(url)) => versions_check(url.clone()),
                };
                vec![effect]
            },
            Event::DiscoverResponse(Err(_)) => Vec::new(),
            Event::DiscoverResponse(Ok(res)) => match well_known_base_url_of(res.status, &res.body) {
                Option::Some(base_url) => vec![versions_check(base_url)],
                Option::None => Vec::new(),
            },
            Event::ValidateHomeserverUrl(url) => vec![versions_check(url)],
            Event::HomeserverValid(url) => {
                model.homeserver_cfg = Some(HomeserverConfig::ServerUrl(url));
                model.homeserver = Some(Homeserver {});
                model.status = Status::Info(String::from_str("Homeserver url valid"));
                render()
            },
            Event::Error(msg) => {
                model.status = Status::Error(msg);
                render()
            },
        }
    }

    /// Turns the outcome of an `Effect::Http` into the follow-up event.
    pub fn continue_with(
        &self,
        continuation: Continuation,
        response: Result<HttpResponse, HttpError>,
    ) -> (r: Option<Event>)
        ensures
            continued(continuation, response, r),
    {
        match continuation {
            Continuation::WellKnown => Some(Event::DiscoverResponse(response)),
            Continuation::Versions(url) => {
                let ok = match &response {
                    Ok(res) => versions_ok(res.status, &res.body),
                    Err(_) => false,
                };
                if ok {
                    Some(Event::HomeserverValid(url))
                } else {
                    Some(Event::Error(String::from_str("Invalid homeserver url")))
                }
            },
        }
    }

    /// Hands the outcome of an `Effect::Http` to its continuation and handles
    /// the follow-up event, if any.
    pub fn resolve(
        &self,
        continuation: Continuation,
        response: Result<HttpResponse, HttpError>,
        model: &mut Model,
    ) -> (effects: Vec<Effect>)
        ensures
            resolved(continuation, response, *old(model), *final(model), effects@),
    {
        match self.continue_with(continuation, response) {
            Some(event) => self.update(event, model),
            None => Vec::new(),
        }
    }

    /// What the user sees of `model`.
    pub fn view(&self, model: &Model) -> (v: ViewModel)
        ensures
            v.status == model.status,
    {
        let status = match &model.status {
            Status::Unset => Status::Unset,
            Status::Info(m) => Status::Info(m.clone()),
            Status::Error(m) => Status::Error(m.clone()),
        };
        ViewModel { status }
    }
}

} // verus!
