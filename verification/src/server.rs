//! The two servers of the daemon: one for its users, one for its administrator.
use vstd::prelude::*;

use crate::config;
use crate::config::{config_sources, ConfigSource};
use crate::text;

verus! {

/// The methods of requests that the servers serve.
#[derive(Clone, Copy, Debug, PartialEq, Eq, Structural)]
pub enum HttpMethod {
    Get,
    Post,
}

/// Which origins or headers are allowed across origins.
#[derive(Clone, Copy, Debug, PartialEq, Eq, Structural)]
pub enum Allowed {
    All,
}

/// How requests from pages of other origins are treated. All that is not named here is
/// as `rocket_cors` has it by default.
#[derive(Debug)]
pub struct CorsOptions {
    pub allowed_origins: Allowed,
    pub allowed_methods: Vec<HttpMethod>,
    pub allowed_headers: Allowed,
    pub allow_credentials: bool,
}

/// The treatment of requests from other origins, ready to be attached to a server.
#[verifier::external_type_specification]
#[verifier::external_body]
pub struct ExCors(rocket_cors::Cors);

/// The error of `rocket_cors`.
#[verifier::external_type_specification]
#[verifier::external_body]
pub struct ExCorsError(rocket_cors::Error);

/// All that the treatment of requests from other origins says.
pub ghost struct CorsPolicy {
    pub allowed_origins: Allowed,
    pub allowed_methods: Set<HttpMethod>,
    pub allowed_headers: Allowed,
    pub allow_credentials: bool,
    /// The headers of an answer that pages of other origins may read.
    pub expose_headers: Set<Seq<char>>,
    /// The seconds for which an answer to a preflight may be kept.
    pub max_age: Option<usize>,
    /// Whether the answer to any origin is a wildcard.
    pub send_wildcard: bool,
    /// The base path and the rank of the routes that answer refused requests.
    pub fairing_route_base: Seq<char>,
    pub fairing_route_rank: int,
}

/// What options stand for: themselves, and the defaults for all that they do not name.
/// By default no header is exposed, no age is given, no wildcard is sent, and refused
/// requests are answered under `/cors` at rank zero.
pub open spec fn policy_of(options: CorsOptions) -> CorsPolicy {
    CorsPolicy {
        allowed_origins: options.allowed_origins,
        allowed_methods: options.allowed_methods@.to_set(),
        allowed_headers: options.allowed_headers,
        allow_credentials: options.allow_credentials,
        expose_headers: Set::empty(),
        max_age: None,
        send_wildcard: false,
        fairing_route_base: "/cors"@,
        fairing_route_rank: 0,
    }
}

/// All origins are allowed, with any headers and with credentials, to read and to post.
/// Nothing else is granted.
pub open spec fn open_policy() -> CorsPolicy {
    CorsPolicy {
        allowed_origins: Allowed::All,
        allowed_methods: set![HttpMethod::Get, HttpMethod::Post],
        allowed_headers: Allowed::All,
        allow_credentials: true,
        expose_headers: Set::empty(),
        max_age: None,
        send_wildcard: false,
        fairing_route_base: "/cors"@,
        fairing_route_rank: 0,
    }
}

/// What a `Cors` was made to do.
pub uninterp spec fn cors_policy(cors: rocket_cors::Cors) -> CorsPolicy;

/// Calls `CorsOptions::to_cors` of `rocket_cors`, with its defaults for all that
/// `options` leaves open.
///
/// Trusted: the result does what `options` say, and what `CorsOptions::default` says where
/// they are silent. The call fails only on listed origins that it cannot parse, of which
/// there are none here, and on credentials together with a wildcard answer, which is off
/// by default.
#[verifier::external_body]
fn to_cors(options: &CorsOptions) -> (cors: Result<rocket_cors::Cors, rocket_cors::Error>)
    ensures
        cors is Ok,
        cors_policy(cors->Ok_0) == policy_of(*options),
{
    rocket_cors::CorsOptions {
        allowed_origins: match options.allowed_origins {
            Allowed::All => rocket_cors::AllowedOrigins::all(),
        },
        allowed_methods: options.allowed_methods.iter().map(|method| match method {
            HttpMethod::Get => rocket_cors::Method::from(rocket::http::Method::Get),
            HttpMethod::Post => rocket_cors::Method::from(rocket::http::Method::Post),
        }).collect(),
        allowed_headers: match options.allowed_headers {
            Allowed::All => rocket_cors::AllowedHeaders::all(),
        },
        allow_credentials: options.allow_credentials,
        ..Default::default()
    }.to_cors()
}

/// The treatment of requests from other origins: all are allowed, with any headers and
/// with credentials, to read and to post.
pub fn cors_options() -> (options: CorsOptions)
    ensures
        options.allowed_origins == Allowed::All,
        options.allowed_methods@ == seq![HttpMethod::Get, HttpMethod::Post],
        options.allowed_headers == Allowed::All,
        options.allow_credentials,
        policy_of(options) == open_policy(),
{
    let options = CorsOptions {
        allowed_origins: Allowed::All,
        allowed_methods: vec![HttpMethod::Get, HttpMethod::Post],
        allowed_headers: Allowed::All,
        allow_credentials: true,
    };
    proof {
        let methods = options.allowed_methods@;
        assert(methods[0] == HttpMethod::Get && methods[1] == HttpMethod::Post);
        assert(methods.to_set() == set![HttpMethod::Get, HttpMethod::Post]);
    }
    options
}

/// What a server can be asked.
#[derive(Clone, Copy, Debug, PartialEq, Eq, Structural)]
pub enum Route {
    ConnectVmGet,
    ConnectVmPost,
    PrpcPost,
    PrpcGet,
    BlobPost,
    BlobGet,
    Console,
    PrpcAdminPost,
    PrpcAdminGet,
}

/// Routes under a common base path.
#[derive(Debug)]
pub struct Mount {
    pub base: &'static str,
    pub routes: Vec<Route>,
}

/// What is attached to a server.
#[derive(Clone, Copy, Debug, PartialEq, Eq, Structural)]
pub enum Fairing {
    /// The treatment of requests from other origins.
    Cors,
    /// The signer of answers, up to a size of their bodies in bytes.
    ResponseSigner { max_body_size: usize },
    /// The numbering of requests.
    RequestTracer,
    /// The measure of the time that requests take.
    TimeMeter,
}

/// How a server is set up.
pub struct ServerPlan {
    /// Where its configuration comes from, in the order in which the sources are merged:
    /// a later one goes before an earlier one.
    pub sources: Vec<ConfigSource>,
    /// The profile of the configuration that it takes.
    pub profile: &'static str,
    pub cors: rocket_cors::Cors,
    /// What is attached, in order.
    pub fairings: Vec<Fairing>,
    /// The token by which the administrator is known, where the server holds it.
    pub api_token: Option<String>,
    pub mounts: Vec<Mount>,
    /// What is logged before the server starts.
    pub announcement: Vec<String>,
}

/// Why a server is not set up.
#[derive(Debug)]
pub enum ServeFailure {
    Cors(rocket_cors::Error),
}

impl ServeFailure {
    /// What is said of the failure beside its cause.
    pub fn context(&self) -> (message: &'static str)
        ensures
            message@ == "failed to create CORS options"@,
    {
        "failed to create CORS options"
    }
}

/// The character sequences that a list of string slices holds.
pub open spec fn str_views(list: Seq<&str>) -> Seq<Seq<char>> {
    list.map_values(|s: &str| s@)
}

/// The lines that list remote calls under a base path.
pub open spec fn method_lines(prefix: Seq<char>, methods: Seq<Seq<char>>) -> Seq<Seq<char>> {
    seq!["methods under "@ + prefix + ":"@] + methods.map_values(
        |method: Seq<char>| "    "@ + prefix + "/"@ + method,
    )
}

/// The lines of the log that list the remote calls `methods` under `prefix`.
pub fn print_rpc_methods(prefix: &str, methods: &[&str]) -> (list: Vec<String>)
    ensures
        text::string_views(list@) == method_lines(prefix@, str_views(methods@)),
        list@.len() == 1 + methods@.len(),
        list@[0]@ == "methods under "@ + prefix@ + ":"@,
        forall|i: int|
            #![trigger methods@[i]]
            0 <= i < methods@.len() ==> list@[i + 1]@ == "    "@ + prefix@ + "/"@ + methods@[i]@,
{
    let mut list: Vec<String> = Vec::new();
    let title = "methods under ".to_owned().concat(prefix).concat(":");
    list.push(title);
    let ghost expected = method_lines(prefix@, str_views(methods@));
    assert(text::string_views(list@) == expected.take(1));
    let mut i: usize = 0;
    while i < methods.len()
        invariant
            i <= methods@.len(),
            expected == method_lines(prefix@, str_views(methods@)),
            text::string_views(list@) == expected.take(i + 1),
        decreases methods@.len() - i,
    {
        let line = "    ".to_owned().concat(prefix).concat("/").concat(methods[i]);
        assert(line@ == expected[i + 1]);
        list.push(line);
        assert(text::string_views(list@) == expected.take(i + 1).push(line@));
        assert(expected.take(i + 2) == expected.take(i + 1).push(line@));
        i += 1;
    }
    assert(expected.take(methods@.len() as int + 1) == expected);
    proof {
        let shown = text::string_views(list@);
        assert(shown.len() == list@.len());
        assert(shown[0] == list@[0]@);
        assert forall|k: int| #![trigger methods@[k]] 0 <= k < methods@.len() implies list@[k
            + 1]@ == "    "@ + prefix@ + "/"@ + methods@[k]@ by {
            assert(shown[k + 1] == list@[k + 1]@);
            assert(str_views(methods@)[k] == methods@[k]@);
        }
    }
    list
}

/// What a list of mounts says.
pub open spec fn mount_views(mounts: Seq<Mount>) -> Seq<(Seq<char>, Seq<Route>)> {
    mounts.map_values(|m: Mount| (m.base@, m.routes@))
}

/// The routes of the user server.
pub open spec fn user_mounts() -> Seq<(Seq<char>, Seq<Route>)> {
    seq![
        ("/"@, seq![Route::ConnectVmGet, Route::ConnectVmPost]),
        ("/prpc"@, seq![Route::PrpcPost, Route::PrpcGet]),
    ]
}

/// The routes of the admin server.
pub open spec fn admin_mounts() -> Seq<(Seq<char>, Seq<Route>)> {
    seq![
        ("/"@, seq![Route::BlobPost, Route::BlobGet, Route::Console]),
        ("/prpc"@, seq![Route::PrpcAdminPost, Route::PrpcAdminGet]),
    ]
}

/// The size up to which the bodies of answers are signed: ten mebibytes.
pub const MAX_SIGNED_BODY_SIZE: usize = 10485760;

/// The treatment of requests from other origins, ready to be attached to a server.
pub fn cors() -> (cors: Result<rocket_cors::Cors, ServeFailure>)
    ensures
        cors is Ok,
        cors_policy(cors->Ok_0) == open_policy(),
        cors_policy(cors->Ok_0).allowed_origins == Allowed::All,
        forall|method: HttpMethod| #[trigger]
            cors_policy(cors->Ok_0).allowed_methods.contains(method),
        cors_policy(cors->Ok_0).allowed_headers == Allowed::All,
        cors_policy(cors->Ok_0).allow_credentials,
        cors_policy(cors->Ok_0).expose_headers == Set::<Seq<char>>::empty(),
        cors_policy(cors->Ok_0).max_age is None,
        !cors_policy(cors->Ok_0).send_wildcard,
        cors_policy(cors->Ok_0).fairing_route_base == "/cors"@,
        cors_policy(cors->Ok_0).fairing_route_rank == 0,
{
    let options = cors_options();
    match to_cors(&options) {
        Ok(cors) => Ok(cors),
        Err(error) => Err(ServeFailure::Cors(error)),
    }
}

/// Plans the user server, whose remote calls are `methods`.
pub fn serve_user(methods: &[&str], user_port: Option<u16>) -> (plan: Result<
    ServerPlan,
    ServeFailure,
>)
    ensures
        plan is Ok,
        text::string_views(plan->Ok_0.announcement@) == method_lines("/prpc"@, str_views(methods@)),
        plan->Ok_0.profile@ == "user"@,
        config::source_views(plan->Ok_0.sources@) == config::merge_order(
            "Wapod.toml"@,
            "WAPOD_USER_"@,
            user_port,
        ),
        forall|ports: config::ConfiguredPorts| #[trigger]
            config::launched_port(config::source_views(plan->Ok_0.sources@), "user"@, ports)
                == Some(
                config::chosen_port("Wapod.toml"@, "WAPOD_USER_"@, "user"@, user_port, ports),
            ),
        cors_policy(plan->Ok_0.cors) == open_policy(),
        plan->Ok_0.fairings@ == seq![
            Fairing::Cors,
            Fairing::ResponseSigner { max_body_size: MAX_SIGNED_BODY_SIZE },
            Fairing::RequestTracer,
            Fairing::TimeMeter,
        ],
        plan->Ok_0.fairings@[1] matches Fairing::ResponseSigner { max_body_size } && max_body_size
            == 10 * 1024 * 1024,
        plan->Ok_0.api_token is None,
        mount_views(plan->Ok_0.mounts@) == user_mounts(),
        administrator_can_be_told(plan->Ok_0),
        plan->Ok_0.announcement@.len() == 1 + methods@.len(),
        plan->Ok_0.announcement@[0]@ == "methods under "@ + "/prpc"@ + ":"@,
        forall|i: int|
            #![trigger methods@[i]]
            0 <= i < methods@.len() ==> plan->Ok_0.announcement@[i + 1]@ == "    "@ + "/prpc"@
                + "/"@ + methods@[i]@,
        plan->Ok_0.sources@.len() == if user_port is Some { 4int } else { 3int },
        plan->Ok_0.sources@[0] is Defaults,
        plan->Ok_0.sources@[1] matches ConfigSource::File { path } && path@ == "Wapod.toml"@,
        plan->Ok_0.sources@[2] matches ConfigSource::Environment { prefix } && prefix@
            == "WAPOD_USER_"@,
        user_port matches Some(p) ==> plan->Ok_0.sources@[3] == (ConfigSource::Port { port: p }),
        plan->Ok_0.mounts@.len() == 2,
        plan->Ok_0.mounts@[0].base@ == "/"@,
        plan->Ok_0.mounts@[0].routes@ == seq![Route::ConnectVmGet, Route::ConnectVmPost],
        plan->Ok_0.mounts@[1].base@ == "/prpc"@,
        plan->Ok_0.mounts@[1].routes@ == seq![Route::PrpcPost, Route::PrpcGet],
        cors_policy(plan->Ok_0.cors).allowed_origins == Allowed::All,
        forall|method: HttpMethod| #[trigger]
            cors_policy(plan->Ok_0.cors).allowed_methods.contains(method),
        cors_policy(plan->Ok_0.cors).allowed_headers == Allowed::All,
        cors_policy(plan->Ok_0.cors).allow_credentials,
        cors_policy(plan->Ok_0.cors).expose_headers == Set::<Seq<char>>::empty(),
        cors_policy(plan->Ok_0.cors).max_age is None,
        !cors_policy(plan->Ok_0.cors).send_wildcard,
        cors_policy(plan->Ok_0.cors).fairing_route_base == "/cors"@,
        cors_policy(plan->Ok_0.cors).fairing_route_rank == 0,
{
    let announcement = print_rpc_methods("/prpc", methods);
    let cors = match cors() {
        Ok(cors) => cors,
        Err(failure) => {
            return Err(failure);
        },
    };
    proof {
        config::law_port_precedence("Wapod.toml"@, "WAPOD_USER_"@, "user"@, user_port);
        assert forall|route: Route| #[trigger] serves(user_mounts(), route) implies !needs_api_token(
            route,
        ) by {
            law_admin_routes_are_apart(route);
        }
    }
    Ok(
        ServerPlan {
            sources: config_sources("Wapod.toml", "WAPOD_USER_", user_port),
            profile: "user",
            cors,
            fairings: vec![
                Fairing::Cors,
                Fairing::ResponseSigner { max_body_size: MAX_SIGNED_BODY_SIZE },
                Fairing::RequestTracer,
                Fairing::TimeMeter,
            ],
            api_token: None,
            mounts: vec![
                Mount { base: "/", routes: vec![Route::ConnectVmGet, Route::ConnectVmPost] },
                Mount { base: "/prpc", routes: vec![Route::PrpcPost, Route::PrpcGet] },
            ],
            announcement,
        },
    )
}

/// Plans the admin server, whose remote calls are `methods` and whose administrator is
/// known by `api_token`.
pub fn serve_admin(methods: &[&str], admin_port: Option<u16>, api_token: String) -> (plan: Result<
    ServerPlan,
    ServeFailure,
>)
    ensures
        plan is Ok,
        text::string_views(plan->Ok_0.announcement@) == method_lines("/prpc"@, str_views(methods@)),
        plan->Ok_0.profile@ == "admin"@,
        config::source_views(plan->Ok_0.sources@) == config::merge_order(
            "Wapod.toml"@,
            "WAPOD_ADMIN_"@,
            admin_port,
        ),
        forall|ports: config::ConfiguredPorts| #[trigger]
            config::launched_port(config::source_views(plan->Ok_0.sources@), "admin"@, ports)
                == Some(
                config::chosen_port("Wapod.toml"@, "WAPOD_ADMIN_"@, "admin"@, admin_port, ports),
            ),
        cors_policy(plan->Ok_0.cors) == open_policy(),
        plan->Ok_0.fairings@ == seq![Fairing::Cors, Fairing::RequestTracer, Fairing::TimeMeter],
        plan->Ok_0.api_token == Some(api_token),
        mount_views(plan->Ok_0.mounts@) == admin_mounts(),
        administrator_can_be_told(plan->Ok_0),
        plan->Ok_0.announcement@.len() == 1 + methods@.len(),
        plan->Ok_0.announcement@[0]@ == "methods under "@ + "/prpc"@ + ":"@,
        forall|i: int|
            #![trigger methods@[i]]
            0 <= i < methods@.len() ==> plan->Ok_0.announcement@[i + 1]@ == "    "@ + "/prpc"@
                + "/"@ + methods@[i]@,
        plan->Ok_0.sources@.len() == if admin_port is Some { 4int } else { 3int },
        plan->Ok_0.sources@[0] is Defaults,
        plan->Ok_0.sources@[1] matches ConfigSource::File { path } && path@ == "Wapod.toml"@,
        plan->Ok_0.sources@[2] matches ConfigSource::Environment { prefix } && prefix@
            == "WAPOD_ADMIN_"@,
        admin_port matches Some(p) ==> plan->Ok_0.sources@[3] == (ConfigSource::Port { port: p }),
        plan->Ok_0.mounts@.len() == 2,
        plan->Ok_0.mounts@[0].base@ == "/"@,
        plan->Ok_0.mounts@[0].routes@ == seq![Route::BlobPost, Route::BlobGet, Route::Console],
        plan->Ok_0.mounts@[1].base@ == "/prpc"@,
        plan->Ok_0.mounts@[1].routes@ == seq![Route::PrpcAdminPost, Route::PrpcAdminGet],
        cors_policy(plan->Ok_0.cors).allowed_origins == Allowed::All,
        forall|method: HttpMethod| #[trigger]
            cors_policy(plan->Ok_0.cors).allowed_methods.contains(method),
        cors_policy(plan->Ok_0.cors).allowed_headers == Allowed::All,
        cors_policy(plan->Ok_0.cors).allow_credentials,
        cors_policy(plan->Ok_0.cors).expose_headers == Set::<Seq<char>>::empty(),
        cors_policy(plan->Ok_0.cors).max_age is None,
        !cors_policy(plan->Ok_0.cors).send_wildcard,
        cors_policy(plan->Ok_0.cors).fairing_route_base == "/cors"@,
        cors_policy(plan->Ok_0.cors).fairing_route_rank == 0,
{
    let announcement = print_rpc_methods("/prpc", methods);
    let cors = match cors() {
        Ok(cors) => cors,
        Err(failure) => {
            return Err(failure);
        },
    };
    proof {
        config::law_port_precedence("Wapod.toml"@, "WAPOD_ADMIN_"@, "admin"@, admin_port);
    }
    Ok(
        ServerPlan {
            sources: config_sources("Wapod.toml", "WAPOD_ADMIN_", admin_port),
            profile: "admin",
            cors,
            fairings: vec![Fairing::Cors, Fairing::RequestTracer, Fairing::TimeMeter],
            api_token: Some(api_token),
            mounts: vec![
                Mount {
                    base: "/",
                    routes: vec![Route::BlobPost, Route::BlobGet, Route::Console],
                },
                Mount { base: "/prpc", routes: vec![Route::PrpcAdminPost, Route::PrpcAdminGet] },
            ],
            announcement,
        },
    )
}

/// Whether a route answers the administrator only.
pub open spec fn needs_api_token(route: Route) -> bool {
    route == Route::BlobPost || route == Route::BlobGet || route == Route::PrpcAdminPost || route
        == Route::PrpcAdminGet
}

/// Whether a route answers the administrator only.
pub fn asks_for_token(route: Route) -> (asks: bool)
    ensures
        asks == needs_api_token(route),
        asks <==> route is BlobPost || route is BlobGet || route is PrpcAdminPost || route
            is PrpcAdminGet,
{
    match route {
        Route::BlobPost | Route::BlobGet | Route::PrpcAdminPost | Route::PrpcAdminGet => true,
        _ => false,
    }
}

/// The services whose remote calls are served.
#[derive(Clone, Copy, Debug, PartialEq, Eq, Structural)]
pub enum RpcService {
    User,
    Admin,
}

/// What a route passes its requests on to.
#[derive(Clone, Copy, Debug, PartialEq, Eq, Structural)]
pub enum RouteCall {
    /// An instance, with the body of the request or without one.
    Connect { with_body: bool },
    /// A remote call of a service, with the body of the request or without one, and with
    /// JSON in place of the binary encoding or not.
    Rpc { service: RpcService, with_body: bool, json: bool },
}

/// What a route passes its requests on to, if it does, where `json` says whether the
/// request asks for JSON. A body is passed on from posts alone, and remote calls by `GET`
/// are always in JSON.
pub fn call_of(route: Route, json: bool) -> (call: Option<RouteCall>)
    ensures
        call == match route {
            Route::ConnectVmGet => Some(RouteCall::Connect { with_body: false }),
            Route::ConnectVmPost => Some(RouteCall::Connect { with_body: true }),
            Route::PrpcPost => Some(
                RouteCall::Rpc { service: RpcService::User, with_body: true, json },
            ),
            Route::PrpcGet => Some(
                RouteCall::Rpc { service: RpcService::User, with_body: false, json: true },
            ),
            Route::PrpcAdminPost => Some(
                RouteCall::Rpc { service: RpcService::Admin, with_body: true, json },
            ),
            Route::PrpcAdminGet => Some(
                RouteCall::Rpc { service: RpcService::Admin, with_body: false, json: true },
            ),
            Route::BlobPost | Route::BlobGet | Route::Console => None,
        },
{
    match route {
        Route::ConnectVmGet => Some(RouteCall::Connect { with_body: false }),
        Route::ConnectVmPost => Some(RouteCall::Connect { with_body: true }),
        Route::PrpcPost => Some(
            RouteCall::Rpc { service: RpcService::User, with_body: true, json },
        ),
        Route::PrpcGet => Some(
            RouteCall::Rpc { service: RpcService::User, with_body: false, json: true },
        ),
        Route::PrpcAdminPost => Some(
            RouteCall::Rpc { service: RpcService::Admin, with_body: true, json },
        ),
        Route::PrpcAdminGet => Some(
            RouteCall::Rpc { service: RpcService::Admin, with_body: false, json: true },
        ),
        Route::BlobPost | Route::BlobGet | Route::Console => None,
    }
}

/// Whether a server with these mounts serves a route.
pub open spec fn serves(mounts: Seq<(Seq<char>, Seq<Route>)>, route: Route) -> bool {
    exists|i: int| 0 <= i < mounts.len() && (#[trigger] mounts[i]).1.contains(route)
}

/// A server that serves a route for the administrator only holds the token by which the
/// administrator is known.
pub open spec fn administrator_can_be_told(plan: ServerPlan) -> bool {
    forall|route: Route| #[trigger]
        serves(mount_views(plan.mounts@), route) && needs_api_token(route)
            ==> plan.api_token is Some
}

/// The two servers share no route, and those that answer the administrator only are on
/// the admin server.
pub proof fn law_admin_routes_are_apart(route: Route)
    ensures
        !(serves(user_mounts(), route) && serves(admin_mounts(), route)),
        needs_api_token(route) ==> serves(admin_mounts(), route) && !serves(user_mounts(), route),
{
    let user = user_mounts();
    let admin = admin_mounts();
    assert(admin[0].1[0] == Route::BlobPost && admin[0].1[1] == Route::BlobGet);
    assert(admin[1].1[0] == Route::PrpcAdminPost && admin[1].1[1] == Route::PrpcAdminGet);
}

/// Every route is on one of the servers.
pub proof fn law_every_route_is_served(route: Route)
    ensures
        serves(user_mounts(), route) || serves(admin_mounts(), route),
{
    let user = user_mounts();
    let admin = admin_mounts();
    assert(user[0].1[0] == Route::ConnectVmGet && user[0].1[1] == Route::ConnectVmPost);
    assert(user[1].1[0] == Route::PrpcPost && user[1].1[1] == Route::PrpcGet);
    assert(admin[0].1[0] == Route::BlobPost && admin[0].1[1] == Route::BlobGet && admin[0].1[2]
        == Route::Console);
    assert(admin[1].1[0] == Route::PrpcAdminPost && admin[1].1[1] == Route::PrpcAdminGet);
}

/// A policy says what its options say, and grants nothing beyond them.
pub proof fn law_policy_follows_options(options: CorsOptions)
    ensures
        policy_of(options).allowed_origins == options.allowed_origins,
        forall|method: HttpMethod| #[trigger]
            policy_of(options).allowed_methods.contains(method) <==> options.allowed_methods@.contains(
                method,
            ),
        policy_of(options).allowed_headers == options.allowed_headers,
        policy_of(options).allow_credentials == options.allow_credentials,
        policy_of(options).expose_headers == Set::<Seq<char>>::empty(),
        policy_of(options).max_age is None,
        !policy_of(options).send_wildcard,
        policy_of(options).fairing_route_base == "/cors"@,
        policy_of(options).fairing_route_rank == 0,
{
}

/// The routes that answer the administrator only are those to blobs and to the remote
/// calls of the administrator. Those are on the admin server beside the console; requests
/// for instances and the remote calls of users are on the user server.
pub proof fn law_token_routes(route: Route)
    ensures
        needs_api_token(route) <==> route is BlobPost || route is BlobGet || route is PrpcAdminPost
            || route is PrpcAdminGet,
        serves(user_mounts(), route) <==> route is ConnectVmGet || route is ConnectVmPost || route
            is PrpcPost || route is PrpcGet,
        serves(admin_mounts(), route) <==> route is BlobPost || route is BlobGet || route
            is Console || route is PrpcAdminPost || route is PrpcAdminGet,
{
    law_admin_routes_are_apart(route);
    law_every_route_is_served(route);
}

} // verus!
