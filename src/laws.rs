//! Laws of the discovery flow, proved from the contracts of `MatrixCore`.
use crate::discovery::{has_scheme, versions_accepted, well_known_base_url};
use crate::homeserver::HomeserverConfig;
use crate::matrix::{
    invalid_message, resolved, updated, valid_message, Continuation, Effect, Event, Model, ViewModel,
};
use crate::protocol::{HttpError, HttpResponse};
use vstd::prelude::*;

verus! {

/// With the domain `n` configured, `Discover` emits exactly one effect, a GET
/// of `https://{n}/.well-known/matrix/client`, and leaves the model as it was.
pub proof fn discover_by_name_fetches_well_known(
    n: String,
    m: Model,
    m2: Model,
    effects: Seq<Effect>,
)
    requires
        m.homeserver_cfg == Some(HomeserverConfig::ServerName(n)),
        updated(Event::Discover, m, m2, effects),
    ensures
        m2 == m,
        effects.len() == 1,
        effects[0] is Http,
        effects[0]->Http_1 is WellKnown,
        effects[0]->Http_0.method@ == "GET"@,
        effects[0]->Http_0.url@ == "https://"@ + n@ + "/.well-known/matrix/client"@,
{
}

/// With the base URL `u` configured (a bare host, without a scheme),
/// `Discover` skips the well-known lookup: it emits exactly one effect, a GET
/// of `https://{u}/_matrix/client/versions`.
pub proof fn discover_by_url_checks_versions(u: String, m: Model, m2: Model, effects: Seq<Effect>)
    requires
        m.homeserver_cfg == Some(HomeserverConfig::ServerUrl(u)),
        !has_scheme(u@),
        updated(Event::Discover, m, m2, effects),
    ensures
        m2 == m,
        effects.len() == 1,
        effects[0] is Http,
        effects[0]->Http_1 is Versions,
        effects[0]->Http_0.method@ == "GET"@,
        effects[0]->Http_0.url@ == "https://"@ + u@ + "/_matrix/client/versions"@,
{
}

/// A well-known response that announces the base URL `https://{x}` makes the
/// next request a GET of `https://{x}/_matrix/client/versions`.
pub proof fn well_known_leads_to_versions(
    res: HttpResponse,
    x: Seq<char>,
    m: Model,
    m2: Model,
    effects: Seq<Effect>,
)
    requires
        well_known_base_url(res.status, res.body@) == Some("https://"@ + x),
        updated(Event::DiscoverResponse(Ok(res)), m, m2, effects),
    ensures
        m2 == m,
        effects.len() == 1,
        effects[0] is Http,
        effects[0]->Http_1 is Versions,
        effects[0]->Http_0.method@ == "GET"@,
        effects[0]->Http_0.url@ == "https://"@ + x + "/_matrix/client/versions"@,
{
    let p = "https://"@;
    assert((p + x).subrange(0, p.len() as int) =~= p);
    assert(has_scheme(p + x));
}

/// A versions response with status 200 and a well-formed body validates the
/// homeserver: it becomes the configured base URL, the status is an `Info`,
/// and one render is requested.
pub proof fn versions_ok_validates(
    u: String,
    res: HttpResponse,
    m: Model,
    m2: Model,
    effects: Seq<Effect>,
)
    requires
        res.status == 200,
        versions_accepted(res.status, res.body@),
        resolved(Continuation::Versions(u), Ok(res), m, m2, effects),
    ensures
        m2.homeserver_cfg == Some(HomeserverConfig::ServerUrl(u)),
        m2.homeserver is Some,
        m2.status is Info,
        m2.status->Info_0@ == valid_message(),
        effects == seq![Effect::Render],
{
}

/// A versions response whose status is not 200, or whose body is not a list
/// of versions, or a transport error, sets the status to the error
/// `Invalid homeserver url` and requests exactly one render.
pub proof fn versions_failure_is_reported(
    u: String,
    response: Result<HttpResponse, HttpError>,
    m: Model,
    m2: Model,
    effects: Seq<Effect>,
)
    requires
        match response {
            Ok(res) => res.status != 200 || !versions_accepted(res.status, res.body@),
            Err(_) => true,
        },
        resolved(Continuation::Versions(u), response, m, m2, effects),
    ensures
        m2.status is Error,
        m2.status->Error_0@ == invalid_message(),
        m2.homeserver_cfg == m.homeserver_cfg,
        m2.homeserver == m.homeserver,
        effects == seq![Effect::Render],
{
}

/// The status becomes a new error only through `Event::Error`.
pub proof fn error_status_only_from_error_event(
    event: Event,
    m: Model,
    m2: Model,
    effects: Seq<Effect>,
)
    requires
        updated(event, m, m2, effects),
        m2.status is Error,
        m2.status != m.status,
    ensures
        event is Error,
{
}

/// Two views of one model, with no event between them, are identical.
pub proof fn view_is_stable(m: Model, v1: ViewModel, v2: ViewModel)
    requires
        v1.status == m.status,
        v2.status == m.status,
    ensures
        v1 == v2,
{
}

} // verus!
