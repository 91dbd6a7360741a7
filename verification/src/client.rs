//! The endpoint dispatcher: request construction and the per-resource
//! operations, every one of them run under the two-endpoint fallback
//! policy of [`crate::fallback`].
//!
//! Each operation's contract names a [`RunRecord`]: the resource path with
//! the caller's selector embedded verbatim — the library performs no
//! validation and no escaping, so the caller must supply a safe selector —
//! the verb and body handed to the transport layer, the bearer
//! authorization value, the URL of each attempt (the primary endpoint
//! first, the fallback second), the attempt outcomes replaying through the
//! policy machine, and the delivered body the result was read from. A
//! delivered response is a success of the call even when its payload
//! reports an application failure: that failure is read from the payload's
//! `error` fields, never from the transport error channel.

use vstd::prelude::*;

use crate::fallback::FallbackState;
use crate::http::LifxError;
use crate::http::read_body;
use crate::http::send_get;
use crate::http::send_post_form;
use crate::http::send_put_form;
use crate::http::send_put_json;
use crate::models::Color;
use crate::models::LiFxResults;
use crate::models::Light;
use crate::models::Lights;
use crate::models::Scene;
use crate::models::Scenes;
use crate::models::lights_of_body;
use crate::models::scenes_of_body;
use crate::models::spec_lights_of_body;
use crate::models::spec_scenes_of_body;
use crate::params::BreatheEffect;
use crate::params::Clean;
use crate::params::EffectsOff;
use crate::params::FlameEffect;
use crate::params::MorphEffect;
use crate::params::MoveEffect;
use crate::params::PulseEffect;
use crate::params::State;
use crate::params::StateDelta;
use crate::params::States;
use crate::params::Toggle;

verus! {

/// The access token and the ordered base endpoints every call uses: the
/// first endpoint is primary, the second, if present, is the fallback.
/// Built once by the caller and passed by value into every call; nothing
/// mutates it.
#[derive(Default, Debug, Clone, PartialEq)]
pub struct LifxConfig {
    pub access_token: String,
    pub api_endpoints: Vec<String>,
}

/// The body a request carries, together with its verb: reads carry
/// nothing, full-state replacement and the bulk write go by PUT, commands
/// and effects go by POST.
pub enum RequestKind {
    Get,
    PutForm(Vec<(String, String)>),
    PutJson(String),
    PostForm(Vec<(String, String)>),
}

/// One planned request: the resource path relative to a base endpoint, and
/// the verb with its body.
pub struct Plan {
    pub path: String,
    pub kind: RequestKind,
}

/// One run of an operation, as the evidence its contract speaks of: what
/// was handed to the transport layer, and what came back.
pub struct RunRecord {
    /// The resource path of the request, relative to a base endpoint.
    pub path: Seq<char>,
    /// The verb and body handed to the transport layer.
    pub kind: RequestKind,
    /// The value handed to the transport layer for the `Authorization`
    /// header.
    pub auth: Seq<char>,
    /// The full URL of each attempt, in order.
    pub urls: Seq<Seq<char>>,
    /// The outcome of each attempt, in order.
    pub outcomes: Seq<Result<reqwest::blocking::Response, String>>,
    /// The delivered response body, once read.
    pub body: Option<Seq<char>>,
}

/// The final outcome of the recorded attempts, if they replay through the
/// policy machine to a finished run.
pub open spec fn spec_final_outcome(rec: RunRecord, n: int) -> Option<
    Result<reqwest::blocking::Response, String>,
> {
    match FallbackState::<reqwest::blocking::Response, String>::spec_run(n, rec.outcomes) {
        Some(FallbackState::Done { outcome }) => Some(outcome),
        _ => None,
    }
}

/// The request-and-transport half of an operation's contract: the run used
/// exactly this path; each attempt's URL is the endpoint at the attempt's
/// position joined with the path — the primary endpoint first, the
/// fallback second; the `Authorization` value is the bearer form of the
/// configured token; the attempt outcomes replay through the policy
/// machine to a finished run; and a body is read only from a delivered
/// response.
pub open spec fn spec_ran(rec: RunRecord, config: LifxConfig, path: Seq<char>) -> bool {
    &&& rec.path == path
    &&& rec.auth == "Bearer "@ + config.access_token@
    &&& rec.urls.len() == rec.outcomes.len()
    &&& (forall|k: int|
        0 <= k < rec.urls.len() ==> #[trigger] rec.urls[k] == config.api_endpoints@[k]@ + path)
    &&& spec_final_outcome(rec, config.api_endpoints@.len() as int) is Some
    &&& (rec.body is Some ==> spec_final_outcome(rec, config.api_endpoints@.len() as int)->0
        is Ok)
}

/// The run carried no body: a plain GET.
pub open spec fn spec_sent_get(rec: RunRecord) -> bool {
    rec.kind is Get
}

/// The run sent exactly these form pairs by POST.
pub open spec fn spec_sent_post_form(rec: RunRecord, pairs: Seq<(Seq<char>, Seq<char>)>) -> bool {
    rec.kind matches RequestKind::PostForm(sent) && sent.deep_view() == pairs
}

/// The run sent exactly these form pairs by PUT.
pub open spec fn spec_sent_put_form(rec: RunRecord, pairs: Seq<(Seq<char>, Seq<char>)>) -> bool {
    rec.kind matches RequestKind::PutForm(sent) && sent.deep_view() == pairs
}

/// The run sent exactly this JSON text by PUT.
pub open spec fn spec_sent_put_json(rec: RunRecord, body: Seq<char>) -> bool {
    rec.kind matches RequestKind::PutJson(sent) && sent@ == body
}

/// How an envelope result relates to its run: a returned envelope is the
/// exact reading of the delivered body; a delivered body that reads as no
/// envelope is the malformed error carrying that body, with no further
/// attempt; a transport failure of the finished run is returned as the
/// transport error; and a read failure arises only from a delivered
/// response, leaving no body.
pub open spec fn spec_results_outcome(
    rec: RunRecord,
    config: LifxConfig,
    r: Result<LiFxResults, LifxError>,
) -> bool {
    let n = config.api_endpoints@.len() as int;
    match r {
        Ok(v) => rec.body matches Some(b) && LiFxResults::spec_of_body(b) == Some(v@),
        Err(e) => match e {
            LifxError::Malformed(text) => rec.body == Some(text@) && LiFxResults::spec_of_body(
                text@,
            ) is None,
            LifxError::Transport(msg) => rec.body is None && spec_final_outcome(rec, n) == Some(
                Result::<reqwest::blocking::Response, String>::Err(msg),
            ),
            LifxError::Read(_) => rec.body is None && spec_final_outcome(rec, n) is Some
                && spec_final_outcome(rec, n)->0 is Ok,
        },
    }
}

/// As [`spec_results_outcome`], for the list-of-lights reading.
pub open spec fn spec_lights_outcome(
    rec: RunRecord,
    config: LifxConfig,
    r: Result<Lights, LifxError>,
) -> bool {
    let n = config.api_endpoints@.len() as int;
    match r {
        Ok(v) => rec.body matches Some(b) && spec_lights_of_body(b) == Some(v.deep_view()),
        Err(e) => match e {
            LifxError::Malformed(text) => rec.body == Some(text@) && spec_lights_of_body(text@)
                is None,
            LifxError::Transport(msg) => rec.body is None && spec_final_outcome(rec, n) == Some(
                Result::<reqwest::blocking::Response, String>::Err(msg),
            ),
            LifxError::Read(_) => rec.body is None && spec_final_outcome(rec, n) is Some
                && spec_final_outcome(rec, n)->0 is Ok,
        },
    }
}

/// As [`spec_results_outcome`], for the list-of-scenes reading.
pub open spec fn spec_scenes_outcome(
    rec: RunRecord,
    config: LifxConfig,
    r: Result<Scenes, LifxError>,
) -> bool {
    let n = config.api_endpoints@.len() as int;
    match r {
        Ok(v) => rec.body matches Some(b) && spec_scenes_of_body(b) == Some(v.deep_view()),
        Err(e) => match e {
            LifxError::Malformed(text) => rec.body == Some(text@) && spec_scenes_of_body(text@)
                is None,
            LifxError::Transport(msg) => rec.body is None && spec_final_outcome(rec, n) == Some(
                Result::<reqwest::blocking::Response, String>::Err(msg),
            ),
            LifxError::Read(_) => rec.body is None && spec_final_outcome(rec, n) is Some
                && spec_final_outcome(rec, n)->0 is Ok,
        },
    }
}

/// As [`spec_results_outcome`], for the color reading.
pub open spec fn spec_color_outcome(
    rec: RunRecord,
    config: LifxConfig,
    r: Result<Color, LifxError>,
) -> bool {
    let n = config.api_endpoints@.len() as int;
    match r {
        Ok(v) => rec.body matches Some(b) && Color::spec_of_body(b) == Some(v@),
        Err(e) => match e {
            LifxError::Malformed(text) => rec.body == Some(text@) && Color::spec_of_body(text@)
                is None,
            LifxError::Transport(msg) => rec.body is None && spec_final_outcome(rec, n) == Some(
                Result::<reqwest::blocking::Response, String>::Err(msg),
            ),
            LifxError::Read(_) => rec.body is None && spec_final_outcome(rec, n) is Some
                && spec_final_outcome(rec, n)->0 is Ok,
        },
    }
}

/// The `Authorization` value every request carries: the word `Bearer`, a
/// space, and the access token verbatim.
pub fn bearer_value(token: &str) -> (r: String)
    ensures
        r@ == "Bearer "@ + token@,
{
    let mut auth = String::new();
    auth.append("Bearer ");
    auth.append(token);
    auth
}

/// The lights resource path: the fixed prefix, the caller's selector
/// embedded verbatim — unescaped, exactly once — and the operation's
/// suffix.
pub fn lights_path(selector: &str, suffix: &str) -> (r: String)
    ensures
        r@ == "/v1/lights/"@ + selector@ + suffix@,
{
    let mut path = String::new();
    path.append("/v1/lights/");
    path.append(selector);
    path.append(suffix);
    path
}

/// The color validation path, with the color text embedded verbatim as the
/// query value.
pub fn color_path(color: &str) -> (r: String)
    ensures
        r@ == "/v1/color?string="@ + color@,
{
    let mut path = String::new();
    path.append("/v1/color?string=");
    path.append(color);
    path
}

/// A selector that targets one light by its id.
pub fn id_selector(id: &str) -> (r: String)
    ensures
        r@ == "id:"@ + id@,
{
    let mut sel = String::new();
    sel.append("id:");
    sel.append(id);
    sel
}

/// A base endpoint joined with a resource path.
fn join_url(base: &str, path: &str) -> (r: String)
    ensures
        r@ == base@ + path@,
{
    let mut url = String::new();
    url.append(base);
    url.append(path);
    url
}

/// One attempt: hands the prepared URL, authorization value and body to
/// the wrapper for the request's verb. The outcome depends on the network;
/// the fallback policy around this call is what the library pins down.
fn attempt(url: &String, auth: &String, kind: &RequestKind) -> (r: Result<
    reqwest::blocking::Response,
    String,
>) {
    match kind {
        RequestKind::Get => send_get(url, auth),
        RequestKind::PutForm(pairs) => send_put_form(url, auth, pairs),
        RequestKind::PutJson(body) => send_put_json(url, auth, body),
        RequestKind::PostForm(pairs) => send_post_form(url, auth, pairs),
    }
}

/// Runs the planned request under the fallback policy and returns the
/// final outcome together with the record of the run: the record carries
/// the plan's path and kind, the bearer authorization value, the URL of
/// each attempt — the endpoint at the attempt's position joined with the
/// path — and the attempt outcomes, which replay through the policy
/// machine to exactly the returned outcome. So an attempt happens only
/// when the machine asks: one against the primary endpoint, and a second
/// against the fallback only after a primary transport failure with a
/// second endpoint configured.
pub fn execute(config: &LifxConfig, plan: &Plan) -> (r: (
    Result<reqwest::blocking::Response, String>,
    Ghost<RunRecord>,
))
    requires
        config.api_endpoints@.len() >= 1,
    ensures
        (r.1)@.path == plan.path@,
        (r.1)@.kind == plan.kind,
        (r.1)@.auth == "Bearer "@ + config.access_token@,
        (r.1)@.body is None,
        (r.1)@.urls.len() == (r.1)@.outcomes.len(),
        forall|k: int|
            0 <= k < (r.1)@.urls.len() ==> #[trigger] (r.1)@.urls[k] == config.api_endpoints@[k]@
                + plan.path@,
        FallbackState::<reqwest::blocking::Response, String>::spec_run(
            config.api_endpoints@.len() as int,
            (r.1)@.outcomes,
        ) == Some((FallbackState::<reqwest::blocking::Response, String>::Done { outcome: r.0 })),
{
    let ghost n = config.api_endpoints@.len() as int;
    let auth = bearer_value(config.access_token.as_str());
    let url0 = join_url(config.api_endpoints[0].as_str(), plan.path.as_str());
    let o1 = attempt(&url0, &auth, &plan.kind);
    let ghost g1 = o1;
    proof {
        assert(seq![g1].drop_last() =~= Seq::<
            Result<reqwest::blocking::Response, String>,
        >::empty());
        assert(FallbackState::<reqwest::blocking::Response, String>::spec_run(n, Seq::empty())
            == Some(FallbackState::<reqwest::blocking::Response, String>::TryPrimary));
    }
    let ghost one_rec = RunRecord {
        path: plan.path@,
        kind: plan.kind,
        auth: auth@,
        urls: seq![url0@],
        outcomes: seq![g1],
        body: None,
    };
    match o1 {
        Ok(resp) => (Ok(resp), Ghost(one_rec)),
        Err(err) => {
            if config.api_endpoints.len() > 1 {
                let url1 = join_url(config.api_endpoints[1].as_str(), plan.path.as_str());
                let o2 = attempt(&url1, &auth, &plan.kind);
                let ghost g2 = o2;
                let ghost two_rec = RunRecord {
                    path: plan.path@,
                    kind: plan.kind,
                    auth: auth@,
                    urls: seq![url0@, url1@],
                    outcomes: seq![g1, g2],
                    body: None,
                };
                proof {
                    assert(seq![g1, g2].drop_last() =~= seq![g1]);
                    assert(FallbackState::<reqwest::blocking::Response, String>::spec_run(
                        n,
                        seq![g1],
                    ) == Some(
                        (FallbackState::<reqwest::blocking::Response, String>::TryFallback {
                            first_failure: g1->Err_0,
                        }),
                    ));
                }
                (o2, Ghost(two_rec))
            } else {
                (Err(err), Ghost(one_rec))
            }
        },
    }
}

/// Runs the planned request and reads the response body, recording it in
/// the run. A transport failure that survives the fallback, or a failure
/// to read the body, is the call's error; a delivered response yields its
/// body text whatever its status code.
fn fetch_body(config: &LifxConfig, plan: &Plan) -> (r: (
    Result<String, LifxError>,
    Ghost<RunRecord>,
))
    requires
        config.api_endpoints@.len() >= 1,
    ensures
        spec_ran((r.1)@, *config, plan.path@),
        (r.1)@.kind == plan.kind,
        match r.0 {
            Ok(body) => (r.1)@.body == Some(body@),
            Err(e) => match e {
                LifxError::Transport(msg) => (r.1)@.body is None && spec_final_outcome(
                    (r.1)@,
                    config.api_endpoints@.len() as int,
                ) == Some(Result::<reqwest::blocking::Response, String>::Err(msg)),
                LifxError::Read(_) => (r.1)@.body is None && spec_final_outcome(
                    (r.1)@,
                    config.api_endpoints@.len() as int,
                ) is Some && spec_final_outcome(
                    (r.1)@,
                    config.api_endpoints@.len() as int,
                )->0 is Ok,
                LifxError::Malformed(_) => false,
            },
        },
{
    let (res, rec) = execute(config, plan);
    match res {
        Ok(resp) => match read_body(resp) {
            Ok(body) => {
                let ghost read_rec = RunRecord { body: Some(body@), ..rec@ };
                (Ok(body), Ghost(read_rec))
            },
            Err(e) => (Err(LifxError::Read(e)), rec),
        },
        Err(e) => (Err(LifxError::Transport(e)), rec),
    }
}

/// Runs the planned request and parses the delivered body into the command
/// response envelope, exactly as [`spec_results_outcome`] says.
fn dispatch_results(config: &LifxConfig, plan: &Plan) -> (r: (
    Result<LiFxResults, LifxError>,
    Ghost<RunRecord>,
))
    requires
        config.api_endpoints@.len() >= 1,
    ensures
        spec_ran((r.1)@, *config, plan.path@),
        (r.1)@.kind == plan.kind,
        spec_results_outcome((r.1)@, *config, r.0),
{
    let (res, rec) = fetch_body(config, plan);
    match res {
        Ok(body) => match LiFxResults::of_body(body.as_str()) {
            Some(v) => (Ok(v), rec),
            None => (Err(LifxError::Malformed(body)), rec),
        },
        Err(e) => (Err(e), rec),
    }
}

/// As [`dispatch_results`], for the list-of-lights reading.
fn dispatch_lights(config: &LifxConfig, plan: &Plan) -> (r: (
    Result<Lights, LifxError>,
    Ghost<RunRecord>,
))
    requires
        config.api_endpoints@.len() >= 1,
    ensures
        spec_ran((r.1)@, *config, plan.path@),
        (r.1)@.kind == plan.kind,
        spec_lights_outcome((r.1)@, *config, r.0),
{
    let (res, rec) = fetch_body(config, plan);
    match res {
        Ok(body) => match lights_of_body(body.as_str()) {
            Some(v) => (Ok(v), rec),
            None => (Err(LifxError::Malformed(body)), rec),
        },
        Err(e) => (Err(e), rec),
    }
}

/// As [`dispatch_results`], for the list-of-scenes reading.
fn dispatch_scenes(config: &LifxConfig, plan: &Plan) -> (r: (
    Result<Scenes, LifxError>,
    Ghost<RunRecord>,
))
    requires
        config.api_endpoints@.len() >= 1,
    ensures
        spec_ran((r.1)@, *config, plan.path@),
        (r.1)@.kind == plan.kind,
        spec_scenes_outcome((r.1)@, *config, r.0),
{
    let (res, rec) = fetch_body(config, plan);
    match res {
        Ok(body) => match scenes_of_body(body.as_str()) {
            Some(v) => (Ok(v), rec),
            None => (Err(LifxError::Malformed(body)), rec),
        },
        Err(e) => (Err(e), rec),
    }
}

/// As [`dispatch_results`], for the color reading.
fn dispatch_color(config: &LifxConfig, plan: &Plan) -> (r: (
    Result<Color, LifxError>,
    Ghost<RunRecord>,
))
    requires
        config.api_endpoints@.len() >= 1,
    ensures
        spec_ran((r.1)@, *config, plan.path@),
        (r.1)@.kind == plan.kind,
        spec_color_outcome((r.1)@, *config, r.0),
{
    let (res, rec) = fetch_body(config, plan);
    match res {
        Ok(body) => match Color::of_body(body.as_str()) {
            Some(v) => (Ok(v), rec),
            None => (Err(LifxError::Malformed(body)), rec),
        },
        Err(e) => (Err(e), rec),
    }
}

/// The plan of a listing request: `GET /v1/lights/{selector}`.
pub fn list_plan(selector: &str) -> (r: Plan)
    ensures
        r.path@ == "/v1/lights/"@ + selector@,
        r.kind is Get,
{
    let plan = Plan { path: lights_path(selector, ""), kind: RequestKind::Get };
    proof {
        reveal_strlit("");
        assert(plan.path@ =~= "/v1/lights/"@ + selector@);
    }
    plan
}

/// The plan of a full-state replacement: `PUT /v1/lights/{selector}/state`
/// with the state's flattened form pairs.
pub fn set_state_plan(selector: &str, state: &State) -> (r: Plan)
    ensures
        r.path@ == "/v1/lights/"@ + selector@ + "/state"@,
        (r.kind matches RequestKind::PutForm(pairs) && pairs.deep_view() == state.spec_params()),
{
    Plan {
        path: lights_path(selector, "/state"),
        kind: RequestKind::PutForm(state.to_params()),
    }
}

/// The plan of the bulk multi-state write: `PUT /v1/lights/state` with the
/// JSON body [`States::spec_json`] describes — the one operation whose
/// payload is too nested for form pairs.
pub fn set_states_plan(states: &States) -> (r: Plan)
    ensures
        r.path@ == "/v1/lights/state"@,
        (r.kind matches RequestKind::PutJson(body) && body@ == states.spec_json()),
{
    let plan = Plan {
        path: lights_path("", "state"),
        kind: RequestKind::PutJson(states.to_json()),
    };
    proof {
        reveal_strlit("");
        reveal_strlit("/v1/lights/");
        reveal_strlit("state");
        reveal_strlit("/v1/lights/state");
        assert(plan.path@ =~= "/v1/lights/state"@);
    }
    plan
}

/// The plan of a state delta: `POST /v1/lights/{selector}/state/delta`
/// with the delta's flattened form pairs.
pub fn state_delta_plan(selector: &str, delta: &StateDelta) -> (r: Plan)
    ensures
        r.path@ == "/v1/lights/"@ + selector@ + "/state/delta"@,
        (r.kind matches RequestKind::PostForm(pairs) && pairs.deep_view() == delta.spec_params()),
{
    Plan {
        path: lights_path(selector, "/state/delta"),
        kind: RequestKind::PostForm(delta.to_params()),
    }
}

/// The plan of a power toggle: `POST /v1/lights/{selector}/toggle` with
/// the toggle's flattened form pairs.
pub fn toggle_plan(selector: &str, toggle: &Toggle) -> (r: Plan)
    ensures
        r.path@ == "/v1/lights/"@ + selector@ + "/toggle"@,
        (r.kind matches RequestKind::PostForm(pairs) && pairs.deep_view() == toggle.spec_params()),
{
    Plan {
        path: lights_path(selector, "/toggle"),
        kind: RequestKind::PostForm(toggle.to_params()),
    }
}

/// The plan of a clean command: `POST /v1/lights/{selector}/clean` with
/// the command's flattened form pairs.
pub fn clean_plan(selector: &str, clean: &Clean) -> (r: Plan)
    ensures
        r.path@ == "/v1/lights/"@ + selector@ + "/clean"@,
        (r.kind matches RequestKind::PostForm(pairs) && pairs.deep_view() == clean.spec_params()),
{
    Plan {
        path: lights_path(selector, "/clean"),
        kind: RequestKind::PostForm(clean.to_params()),
    }
}

/// The plan of a breathe effect: `POST
/// /v1/lights/{selector}/effects/breathe` with the effect's flattened form
/// pairs.
pub fn breathe_plan(selector: &str, breathe: &BreatheEffect) -> (r: Plan)
    ensures
        r.path@ == "/v1/lights/"@ + selector@ + "/effects/breathe"@,
        (r.kind matches RequestKind::PostForm(pairs) && pairs.deep_view()
            == breathe.spec_params()),
{
    Plan {
        path: lights_path(selector, "/effects/breathe"),
        kind: RequestKind::PostForm(breathe.to_params()),
    }
}

/// The plan of a move effect: `POST /v1/lights/{selector}/effects/move`
/// with the effect's flattened form pairs.
pub fn move_effect_plan(selector: &str, move_effect: &MoveEffect) -> (r: Plan)
    ensures
        r.path@ == "/v1/lights/"@ + selector@ + "/effects/move"@,
        (r.kind matches RequestKind::PostForm(pairs) && pairs.deep_view()
            == move_effect.spec_params()),
{
    Plan {
        path: lights_path(selector, "/effects/move"),
        kind: RequestKind::PostForm(move_effect.to_params()),
    }
}

/// The plan of a morph effect: `POST /v1/lights/{selector}/effects/morph`
/// with the effect's flattened form pairs — the palette in the bespoke
/// bracketed format, not a standard JSON array.
pub fn morph_effect_plan(selector: &str, morph_effect: &MorphEffect) -> (r: Plan)
    ensures
        r.path@ == "/v1/lights/"@ + selector@ + "/effects/morph"@,
        (r.kind matches RequestKind::PostForm(pairs) && pairs.deep_view()
            == morph_effect.spec_params()),
{
    Plan {
        path: lights_path(selector, "/effects/morph"),
        kind: RequestKind::PostForm(morph_effect.to_params()),
    }
}

/// The plan of a flame effect: `POST /v1/lights/{selector}/effects/flame`
/// with the effect's flattened form pairs.
pub fn flame_effect_plan(selector: &str, flame_effect: &FlameEffect) -> (r: Plan)
    ensures
        r.path@ == "/v1/lights/"@ + selector@ + "/effects/flame"@,
        (r.kind matches RequestKind::PostForm(pairs) && pairs.deep_view()
            == flame_effect.spec_params()),
{
    Plan {
        path: lights_path(selector, "/effects/flame"),
        kind: RequestKind::PostForm(flame_effect.to_params()),
    }
}

/// The plan of a pulse effect: `POST /v1/lights/{selector}/effects/pulse`
/// with the effect's flattened form pairs.
pub fn pulse_effect_plan(selector: &str, pulse_effect: &PulseEffect) -> (r: Plan)
    ensures
        r.path@ == "/v1/lights/"@ + selector@ + "/effects/pulse"@,
        (r.kind matches RequestKind::PostForm(pairs) && pairs.deep_view()
            == pulse_effect.spec_params()),
{
    Plan {
        path: lights_path(selector, "/effects/pulse"),
        kind: RequestKind::PostForm(pulse_effect.to_params()),
    }
}

/// The plan of the effects-off command: `POST
/// /v1/lights/{selector}/effects/off` with the command's flattened form
/// pairs.
pub fn effects_off_plan(selector: &str, effects_off: &EffectsOff) -> (r: Plan)
    ensures
        r.path@ == "/v1/lights/"@ + selector@ + "/effects/off"@,
        (r.kind matches RequestKind::PostForm(pairs) && pairs.deep_view()
            == effects_off.spec_params()),
{
    Plan {
        path: lights_path(selector, "/effects/off"),
        kind: RequestKind::PostForm(effects_off.to_params()),
    }
}

/// The plan of the scene listing: `GET /v1/scenes`.
pub fn scenes_plan() -> (r: Plan)
    ensures
        r.path@ == "/v1/scenes"@,
        r.kind is Get,
{
    let mut path = String::new();
    path.append("/v1/scenes");
    proof {
        assert(path@ =~= "/v1/scenes"@);
    }
    Plan { path, kind: RequestKind::Get }
}

/// The plan of a color validation: `GET /v1/color?string={color}`, the
/// color embedded verbatim.
pub fn validate_plan(color: &str) -> (r: Plan)
    ensures
        r.path@ == "/v1/color?string="@ + color@,
        r.kind is Get,
{
    Plan { path: color_path(color), kind: RequestKind::Get }
}

impl Light {
    /// Lists every light the token can see: a [`list_plan`] for the
    /// selector `all`, run as [`spec_ran`] and [`spec_lights_outcome`]
    /// say.
    pub fn list_all(config: LifxConfig) -> (r: Result<Lights, LifxError>)
        requires
            config.api_endpoints@.len() >= 1,
        ensures
            exists|rec: RunRecord|
                #[trigger] spec_ran(rec, config, "/v1/lights/"@ + "all"@) && spec_sent_get(rec)
                    && spec_lights_outcome(rec, config, r),
    {
        let sel = String::from_str("all");
        let plan = list_plan(sel.as_str());
        let (r, rec) = dispatch_lights(&config, &plan);
        proof {
            assert(spec_ran(rec@, config, "/v1/lights/"@ + "all"@));
        }
        r
    }

    /// Lists the selected lights: a [`list_plan`] for the selector, run as
    /// [`spec_ran`] and [`spec_lights_outcome`] say.
    pub fn list_by_selector(config: LifxConfig, selector: String) -> (r: Result<Lights, LifxError>)
        requires
            config.api_endpoints@.len() >= 1,
        ensures
            exists|rec: RunRecord|
                #[trigger] spec_ran(rec, config, "/v1/lights/"@ + selector@) && spec_sent_get(rec)
                    && spec_lights_outcome(rec, config, r),
    {
        let plan = list_plan(selector.as_str());
        let (r, rec) = dispatch_lights(&config, &plan);
        proof {
            assert(spec_ran(rec@, config, "/v1/lights/"@ + selector@));
        }
        r
    }

    /// Replaces this light's state: a [`set_state_plan`] for the selector
    /// `id:{id}`, run as [`spec_ran`] and [`spec_results_outcome`] say.
    pub fn set_state(&self, config: LifxConfig, state: State) -> (r: Result<LiFxResults, LifxError>)
        requires
            config.api_endpoints@.len() >= 1,
        ensures
            exists|rec: RunRecord|
                #[trigger] spec_ran(rec, config, "/v1/lights/"@ + ("id:"@ + self.id@) + "/state"@)
                    && spec_sent_put_form(rec, state.spec_params()) && spec_results_outcome(
                    rec,
                    config,
                    r,
                ),
    {
        let sel = id_selector(self.id.as_str());
        let plan = set_state_plan(sel.as_str(), &state);
        let (r, rec) = dispatch_results(&config, &plan);
        proof {
            assert(spec_ran(rec@, config, "/v1/lights/"@ + ("id:"@ + self.id@) + "/state"@));
        }
        r
    }

    /// Replaces the selected lights' state: a [`set_state_plan`], run as
    /// [`spec_ran`] and [`spec_results_outcome`] say.
    pub fn set_state_by_selector(config: LifxConfig, selector: String, state: State) -> (r: Result<
        LiFxResults,
        LifxError,
    >)
        requires
            config.api_endpoints@.len() >= 1,
        ensures
            exists|rec: RunRecord|
                #[trigger] spec_ran(rec, config, "/v1/lights/"@ + selector@ + "/state"@)
                    && spec_sent_put_form(rec, state.spec_params()) && spec_results_outcome(
                    rec,
                    config,
                    r,
                ),
    {
        let plan = set_state_plan(selector.as_str(), &state);
        let (r, rec) = dispatch_results(&config, &plan);
        proof {
            assert(spec_ran(rec@, config, "/v1/lights/"@ + selector@ + "/state"@));
        }
        r
    }

    /// Applies a state to several selectors at once: the
    /// [`set_states_plan`] with its JSON body, run as [`spec_ran`] and
    /// [`spec_results_outcome`] say.
    pub fn set_states(config: LifxConfig, states: States) -> (r: Result<LiFxResults, LifxError>)
        requires
            config.api_endpoints@.len() >= 1,
        ensures
            exists|rec: RunRecord|
                #[trigger] spec_ran(rec, config, "/v1/lights/state"@) && spec_sent_put_json(
                    rec,
                    states.spec_json(),
                ) && spec_results_outcome(rec, config, r),
    {
        let plan = set_states_plan(&states);
        let (r, rec) = dispatch_results(&config, &plan);
        proof {
            assert(spec_ran(rec@, config, "/v1/lights/state"@));
        }
        r
    }

    /// Moves the selected lights' state by relative amounts: a
    /// [`state_delta_plan`], run as [`spec_ran`] and
    /// [`spec_results_outcome`] say.
    pub fn state_delta_by_selector(config: LifxConfig, selector: String, delta: StateDelta) -> (r:
        Result<LiFxResults, LifxError>)
        requires
            config.api_endpoints@.len() >= 1,
        ensures
            exists|rec: RunRecord|
                #[trigger] spec_ran(rec, config, "/v1/lights/"@ + selector@ + "/state/delta"@)
                    && spec_sent_post_form(rec, delta.spec_params()) && spec_results_outcome(
                    rec,
                    config,
                    r,
                ),
    {
        let plan = state_delta_plan(selector.as_str(), &delta);
        let (r, rec) = dispatch_results(&config, &plan);
        proof {
            assert(spec_ran(rec@, config, "/v1/lights/"@ + selector@ + "/state/delta"@));
        }
        r
    }

    /// Toggles this light's power: a [`toggle_plan`] for the selector
    /// `id:{id}`, run as [`spec_ran`] and [`spec_results_outcome`] say.
    pub fn toggle(&self, config: LifxConfig, toggle: Toggle) -> (r: Result<LiFxResults, LifxError>)
        requires
            config.api_endpoints@.len() >= 1,
        ensures
            exists|rec: RunRecord|
                #[trigger] spec_ran(rec, config, "/v1/lights/"@ + ("id:"@ + self.id@) + "/toggle"@)
                    && spec_sent_post_form(rec, toggle.spec_params()) && spec_results_outcome(
                    rec,
                    config,
                    r,
                ),
    {
        let sel = id_selector(self.id.as_str());
        let plan = toggle_plan(sel.as_str(), &toggle);
        let (r, rec) = dispatch_results(&config, &plan);
        proof {
            assert(spec_ran(rec@, config, "/v1/lights/"@ + ("id:"@ + self.id@) + "/toggle"@));
        }
        r
    }

    /// Toggles the selected lights' power: a [`toggle_plan`], run as
    /// [`spec_ran`] and [`spec_results_outcome`] say.
    pub fn toggle_by_selector(config: LifxConfig, selector: String, toggle: Toggle) -> (r: Result<
        LiFxResults,
        LifxError,
    >)
        requires
            config.api_endpoints@.len() >= 1,
        ensures
            exists|rec: RunRecord|
                #[trigger] spec_ran(rec, config, "/v1/lights/"@ + selector@ + "/toggle"@)
                    && spec_sent_post_form(rec, toggle.spec_params()) && spec_results_outcome(
                    rec,
                    config,
                    r,
                ),
    {
        let plan = toggle_plan(selector.as_str(), &toggle);
        let (r, rec) = dispatch_results(&config, &plan);
        proof {
            assert(spec_ran(rec@, config, "/v1/lights/"@ + selector@ + "/toggle"@));
        }
        r
    }

    /// Switches this light to clean mode: a [`clean_plan`] for the
    /// selector `id:{id}`, run as [`spec_ran`] and
    /// [`spec_results_outcome`] say.
    pub fn clean(&self, config: LifxConfig, clean: Clean) -> (r: Result<LiFxResults, LifxError>)
        requires
            config.api_endpoints@.len() >= 1,
        ensures
            exists|rec: RunRecord|
                #[trigger] spec_ran(rec, config, "/v1/lights/"@ + ("id:"@ + self.id@) + "/clean"@)
                    && spec_sent_post_form(rec, clean.spec_params()) && spec_results_outcome(
                    rec,
                    config,
                    r,
                ),
    {
        let sel = id_selector(self.id.as_str());
        let plan = clean_plan(sel.as_str(), &clean);
        let (r, rec) = dispatch_results(&config, &plan);
        proof {
            assert(spec_ran(rec@, config, "/v1/lights/"@ + ("id:"@ + self.id@) + "/clean"@));
        }
        r
    }

    /// Switches the selected lights to clean mode: a [`clean_plan`], run
    /// as [`spec_ran`] and [`spec_results_outcome`] say.
    pub fn clean_by_selector(config: LifxConfig, selector: String, clean: Clean) -> (r: Result<
        LiFxResults,
        LifxError,
    >)
        requires
            config.api_endpoints@.len() >= 1,
        ensures
            exists|rec: RunRecord|
                #[trigger] spec_ran(rec, config, "/v1/lights/"@ + selector@ + "/clean"@)
                    && spec_sent_post_form(rec, clean.spec_params()) && spec_results_outcome(
                    rec,
                    config,
                    r,
                ),
    {
        let plan = clean_plan(selector.as_str(), &clean);
        let (r, rec) = dispatch_results(&config, &plan);
        proof {
            assert(spec_ran(rec@, config, "/v1/lights/"@ + selector@ + "/clean"@));
        }
        r
    }

    /// Starts the breathe animation on this light: a [`breathe_plan`] for
    /// the selector `id:{id}`, run as [`spec_ran`] and
    /// [`spec_results_outcome`] say.
    pub fn breathe_effect(&self, config: LifxConfig, breathe: BreatheEffect) -> (r: Result<
        LiFxResults,
        LifxError,
    >)
        requires
            config.api_endpoints@.len() >= 1,
        ensures
            exists|rec: RunRecord|
                #[trigger] spec_ran(
                    rec,
                    config,
                    "/v1/lights/"@ + ("id:"@ + self.id@) + "/effects/breathe"@,
                ) && spec_sent_post_form(rec, breathe.spec_params()) && spec_results_outcome(
                    rec,
                    config,
                    r,
                ),
    {
        let sel = id_selector(self.id.as_str());
        let plan = breathe_plan(sel.as_str(), &breathe);
        let (r, rec) = dispatch_results(&config, &plan);
        proof {
            assert(spec_ran(
                rec@,
                config,
                "/v1/lights/"@ + ("id:"@ + self.id@) + "/effects/breathe"@,
            ));
        }
        r
    }

    /// Starts the breathe animation on the selected lights: a
    /// [`breathe_plan`], run as [`spec_ran`] and [`spec_results_outcome`]
    /// say.
    pub fn breathe_by_selector_effect(
        config: LifxConfig,
        selector: String,
        breathe: BreatheEffect,
    ) -> (r: Result<LiFxResults, LifxError>)
        requires
            config.api_endpoints@.len() >= 1,
        ensures
            exists|rec: RunRecord|
                #[trigger] spec_ran(rec, config, "/v1/lights/"@ + selector@ + "/effects/breathe"@)
                    && spec_sent_post_form(rec, breathe.spec_params()) && spec_results_outcome(
                    rec,
                    config,
                    r,
                ),
    {
        let plan = breathe_plan(selector.as_str(), &breathe);
        let (r, rec) = dispatch_results(&config, &plan);
        proof {
            assert(spec_ran(rec@, config, "/v1/lights/"@ + selector@ + "/effects/breathe"@));
        }
        r
    }

    /// Starts the move animation on this light: a [`move_effect_plan`] for
    /// the selector `id:{id}`, run as [`spec_ran`] and
    /// [`spec_results_outcome`] say.
    pub fn move_effect(&self, config: LifxConfig, move_effect: MoveEffect) -> (r: Result<
        LiFxResults,
        LifxError,
    >)
        requires
            config.api_endpoints@.len() >= 1,
        ensures
            exists|rec: RunRecord|
                #[trigger] spec_ran(
                    rec,
                    config,
                    "/v1/lights/"@ + ("id:"@ + self.id@) + "/effects/move"@,
                ) && spec_sent_post_form(rec, move_effect.spec_params()) && spec_results_outcome(
                    rec,
                    config,
                    r,
                ),
    {
        let sel = id_selector(self.id.as_str());
        let plan = move_effect_plan(sel.as_str(), &move_effect);
        let (r, rec) = dispatch_results(&config, &plan);
        proof {
            assert(spec_ran(
                rec@,
                config,
                "/v1/lights/"@ + ("id:"@ + self.id@) + "/effects/move"@,
            ));
        }
        r
    }

    /// Starts the move animation on the selected lights: a
    /// [`move_effect_plan`], run as [`spec_ran`] and
    /// [`spec_results_outcome`] say.
    pub fn move_effect_by_selector(
        config: LifxConfig,
        selector: String,
        move_effect: MoveEffect,
    ) -> (r: Result<LiFxResults, LifxError>)
        requires
            config.api_endpoints@.len() >= 1,
        ensures
            exists|rec: RunRecord|
                #[trigger] spec_ran(rec, config, "/v1/lights/"@ + selector@ + "/effects/move"@)
                    && spec_sent_post_form(rec, move_effect.spec_params()) && spec_results_outcome(
                    rec,
                    config,
                    r,
                ),
    {
        let plan = move_effect_plan(selector.as_str(), &move_effect);
        let (r, rec) = dispatch_results(&config, &plan);
        proof {
            assert(spec_ran(rec@, config, "/v1/lights/"@ + selector@ + "/effects/move"@));
        }
        r
    }

    /// Starts the morph animation on this light: a [`morph_effect_plan`]
    /// for the selector `id:{id}`, run as [`spec_ran`] and
    /// [`spec_results_outcome`] say.
    pub fn morph_effect(&self, config: LifxConfig, morph_effect: MorphEffect) -> (r: Result<
        LiFxResults,
        LifxError,
    >)
        requires
            config.api_endpoints@.len() >= 1,
        ensures
            exists|rec: RunRecord|
                #[trigger] spec_ran(
                    rec,
                    config,
                    "/v1/lights/"@ + ("id:"@ + self.id@) + "/effects/morph"@,
                ) && spec_sent_post_form(rec, morph_effect.spec_params()) && spec_results_outcome(
                    rec,
                    config,
                    r,
                ),
    {
        let sel = id_selector(self.id.as_str());
        let plan = morph_effect_plan(sel.as_str(), &morph_effect);
        let (r, rec) = dispatch_results(&config, &plan);
        proof {
            assert(spec_ran(
                rec@,
                config,
                "/v1/lights/"@ + ("id:"@ + self.id@) + "/effects/morph"@,
            ));
        }
        r
    }

    /// Starts the morph animation on the selected lights: a
    /// [`morph_effect_plan`], run as [`spec_ran`] and
    /// [`spec_results_outcome`] say.
    pub fn morph_effect_by_selector(
        config: LifxConfig,
        selector: String,
        morph_effect: MorphEffect,
    ) -> (r: Result<LiFxResults, LifxError>)
        requires
            config.api_endpoints@.len() >= 1,
        ensures
            exists|rec: RunRecord|
                #[trigger] spec_ran(rec, config, "/v1/lights/"@ + selector@ + "/effects/morph"@)
                    && spec_sent_post_form(rec, morph_effect.spec_params())
                    && spec_results_outcome(rec, config, r),
    {
        let plan = morph_effect_plan(selector.as_str(), &morph_effect);
        let (r, rec) = dispatch_results(&config, &plan);
        proof {
            assert(spec_ran(rec@, config, "/v1/lights/"@ + selector@ + "/effects/morph"@));
        }
        r
    }

    /// Starts the flame animation on this light: a [`flame_effect_plan`]
    /// for the selector `id:{id}`, run as [`spec_ran`] and
    /// [`spec_results_outcome`] say.
    pub fn flame_effect(&self, config: LifxConfig, flame_effect: FlameEffect) -> (r: Result<
        LiFxResults,
        LifxError,
    >)
        requires
            config.api_endpoints@.len() >= 1,
        ensures
            exists|rec: RunRecord|
                #[trigger] spec_ran(
                    rec,
                    config,
                    "/v1/lights/"@ + ("id:"@ + self.id@) + "/effects/flame"@,
                ) && spec_sent_post_form(rec, flame_effect.spec_params()) && spec_results_outcome(
                    rec,
                    config,
                    r,
                ),
    {
        let sel = id_selector(self.id.as_str());
        let plan = flame_effect_plan(sel.as_str(), &flame_effect);
        let (r, rec) = dispatch_results(&config, &plan);
        proof {
            assert(spec_ran(
                rec@,
                config,
                "/v1/lights/"@ + ("id:"@ + self.id@) + "/effects/flame"@,
            ));
        }
        r
    }

    /// Starts the flame animation on the selected lights: a
    /// [`flame_effect_plan`], run as [`spec_ran`] and
    /// [`spec_results_outcome`] say.
    pub fn flame_effect_by_selector(
        config: LifxConfig,
        selector: String,
        flame_effect: FlameEffect,
    ) -> (r: Result<LiFxResults, LifxError>)
        requires
            config.api_endpoints@.len() >= 1,
        ensures
            exists|rec: RunRecord|
                #[trigger] spec_ran(rec, config, "/v1/lights/"@ + selector@ + "/effects/flame"@)
                    && spec_sent_post_form(rec, flame_effect.spec_params())
                    && spec_results_outcome(rec, config, r),
    {
        let plan = flame_effect_plan(selector.as_str(), &flame_effect);
        let (r, rec) = dispatch_results(&config, &plan);
        proof {
            assert(spec_ran(rec@, config, "/v1/lights/"@ + selector@ + "/effects/flame"@));
        }
        r
    }

    /// Starts the pulse animation on this light: a [`pulse_effect_plan`]
    /// for the selector `id:{id}`, run as [`spec_ran`] and
    /// [`spec_results_outcome`] say.
    pub fn pulse_effect(&self, config: LifxConfig, pulse_effect: PulseEffect) -> (r: Result<
        LiFxResults,
        LifxError,
    >)
        requires
            config.api_endpoints@.len() >= 1,
        ensures
            exists|rec: RunRecord|
                #[trigger] spec_ran(
                    rec,
                    config,
                    "/v1/lights/"@ + ("id:"@ + self.id@) + "/effects/pulse"@,
                ) && spec_sent_post_form(rec, pulse_effect.spec_params()) && spec_results_outcome(
                    rec,
                    config,
                    r,
                ),
    {
        let sel = id_selector(self.id.as_str());
        let plan = pulse_effect_plan(sel.as_str(), &pulse_effect);
        let (r, rec) = dispatch_results(&config, &plan);
        proof {
            assert(spec_ran(
                rec@,
                config,
                "/v1/lights/"@ + ("id:"@ + self.id@) + "/effects/pulse"@,
            ));
        }
        r
    }

    /// Starts the pulse animation on the selected lights: a
    /// [`pulse_effect_plan`], run as [`spec_ran`] and
    /// [`spec_results_outcome`] say.
    pub fn pulse_effect_by_selector(
        config: LifxConfig,
        selector: String,
        pulse_effect: PulseEffect,
    ) -> (r: Result<LiFxResults, LifxError>)
        requires
            config.api_endpoints@.len() >= 1,
        ensures
            exists|rec: RunRecord|
                #[trigger] spec_ran(rec, config, "/v1/lights/"@ + selector@ + "/effects/pulse"@)
                    && spec_sent_post_form(rec, pulse_effect.spec_params())
                    && spec_results_outcome(rec, config, r),
    {
        let plan = pulse_effect_plan(selector.as_str(), &pulse_effect);
        let (r, rec) = dispatch_results(&config, &plan);
        proof {
            assert(spec_ran(rec@, config, "/v1/lights/"@ + selector@ + "/effects/pulse"@));
        }
        r
    }

    /// Turns any running animation off on this light: an
    /// [`effects_off_plan`] for the selector `id:{id}`, run as
    /// [`spec_ran`] and [`spec_results_outcome`] say.
    pub fn effects_off(&self, config: LifxConfig, effects_off: EffectsOff) -> (r: Result<
        LiFxResults,
        LifxError,
    >)
        requires
            config.api_endpoints@.len() >= 1,
        ensures
            exists|rec: RunRecord|
                #[trigger] spec_ran(
                    rec,
                    config,
                    "/v1/lights/"@ + ("id:"@ + self.id@) + "/effects/off"@,
                ) && spec_sent_post_form(rec, effects_off.spec_params()) && spec_results_outcome(
                    rec,
                    config,
                    r,
                ),
    {
        let sel = id_selector(self.id.as_str());
        let plan = effects_off_plan(sel.as_str(), &effects_off);
        let (r, rec) = dispatch_results(&config, &plan);
        proof {
            assert(spec_ran(
                rec@,
                config,
                "/v1/lights/"@ + ("id:"@ + self.id@) + "/effects/off"@,
            ));
        }
        r
    }

    /// Turns any running animation off on the selected lights: an
    /// [`effects_off_plan`], run as [`spec_ran`] and
    /// [`spec_results_outcome`] say.
    pub fn effects_off_by_selector(
        config: LifxConfig,
        selector: String,
        effects_off: EffectsOff,
    ) -> (r: Result<LiFxResults, LifxError>)
        requires
            config.api_endpoints@.len() >= 1,
        ensures
            exists|rec: RunRecord|
                #[trigger] spec_ran(rec, config, "/v1/lights/"@ + selector@ + "/effects/off"@)
                    && spec_sent_post_form(rec, effects_off.spec_params())
                    && spec_results_outcome(rec, config, r),
    {
        let plan = effects_off_plan(selector.as_str(), &effects_off);
        let (r, rec) = dispatch_results(&config, &plan);
        proof {
            assert(spec_ran(rec@, config, "/v1/lights/"@ + selector@ + "/effects/off"@));
        }
        r
    }
}

impl Scene {
    /// Lists the stored scenes: the [`scenes_plan`], run as [`spec_ran`]
    /// and [`spec_scenes_outcome`] say.
    pub fn list(config: LifxConfig) -> (r: Result<Scenes, LifxError>)
        requires
            config.api_endpoints@.len() >= 1,
        ensures
            exists|rec: RunRecord|
                #[trigger] spec_ran(rec, config, "/v1/scenes"@) && spec_sent_get(rec)
                    && spec_scenes_outcome(rec, config, r),
    {
        let plan = scenes_plan();
        let (r, rec) = dispatch_scenes(&config, &plan);
        proof {
            assert(spec_ran(rec@, config, "/v1/scenes"@));
        }
        r
    }
}

impl Color {
    /// Asks the service to validate a color text: a [`validate_plan`], run
    /// as [`spec_ran`] and [`spec_color_outcome`] say — an invalid color
    /// surfaces in the returned record's `error` fields, inside a
    /// delivered response.
    pub fn validate(config: LifxConfig, color: String) -> (r: Result<Color, LifxError>)
        requires
            config.api_endpoints@.len() >= 1,
        ensures
            exists|rec: RunRecord|
                #[trigger] spec_ran(rec, config, "/v1/color?string="@ + color@) && spec_sent_get(
                    rec,
                ) && spec_color_outcome(rec, config, r),
    {
        let plan = validate_plan(color.as_str());
        let (r, rec) = dispatch_color(&config, &plan);
        proof {
            assert(spec_ran(rec@, config, "/v1/color?string="@ + color@));
        }
        r
    }
}

} // verus!
