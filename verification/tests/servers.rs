use rocket::data::{Limits, ToByteUnit};
use rocket::figment::providers::{Format, Serialized, Toml};
use rocket::figment::Figment;
use wapo::blobs::{blob_get, blob_limit, blob_limit_or_default, blob_post, blob_request};
use wapo::config::{config_sources, ConfigSource};
use wapo::http::Status;
use wapo::server::{
    asks_for_token, call_of, cors, cors_options, print_rpc_methods, serve_admin, serve_user,
    Allowed, Fairing, HttpMethod, Route, RouteCall, RpcService,
};
use wapo::signing::{sign_http_response, signing_request, ContentType};
use wapo::worker::{crate_worker_state, created_service, WorkerFailure, WorkerSettings};

#[test]
fn signature_is_hexadecimal() {
    assert_eq!(sign_http_response(&[]), Some("".to_string()));
    assert_eq!(sign_http_response(&[0x00, 0x0f, 0xa5, 0xff]), Some("000fa5ff".to_string()));
    assert_ne!(sign_http_response(&[1, 2]), sign_http_response(&[2, 1]));
}

#[test]
fn body_is_signed_as_it_is() {
    let body: Vec<u8> = vec![1, 2, 3];
    assert_eq!(signing_request(&body), (ContentType::RpcResponse, &[1u8, 2, 3][..]));
}

#[test]
fn blob_limit_is_configured() {
    let limits = Limits::new().limit("Admin.PutObject", 3.mebibytes());
    assert_eq!(blob_limit(&limits), 3145728);
    let limits = Limits::new().limit("admin.putobject", 5.bytes());
    assert_eq!(blob_limit(&limits), 5);
}

#[test]
fn blob_limit_has_a_default() {
    assert_eq!(blob_limit(&Limits::new()), 10485760);
    assert_eq!(blob_limit(&Limits::default()), 10485760);
    assert_eq!(blob_limit(&Limits::new().limit("Admin", 1.bytes())), 10485760);
    assert_eq!(10.mebibytes().as_u64(), 10485760);
    assert_eq!(blob_limit_or_default(Some(0)), 0);
    assert_eq!(blob_limit_or_default(None), 10485760);
}

#[test]
fn blob_is_stored_as_asked() {
    let limits = Limits::new().limit("Admin.PutObject", 3.bytes());
    let request = blob_request(vec![7, 0, 255], "sha256".to_string(), &limits);
    assert_eq!(request.hash, vec![7, 0, 255]);
    assert_eq!(request.kind, "sha256");
    assert_eq!(request.limit, 3);
    let request = blob_request(Vec::new(), String::new(), &Limits::new());
    assert_eq!(request.hash, Vec::<u8>::new());
    assert_eq!(request.kind, "");
    assert_eq!(request.limit, 10485760);
}

#[test]
fn token_is_held_where_routes_ask_for_it() {
    let user = serve_user(&[], None).unwrap();
    let admin = serve_admin(&[], None, "secret word".to_string()).unwrap();
    for plan in [user, admin] {
        let asked = plan.mounts.iter().any(|m| m.routes.iter().any(|r| asks_for_token(*r)));
        assert_eq!(asked, plan.api_token.is_some());
    }
}

#[test]
fn stored_blob_is_answered() {
    assert_eq!(blob_post(Ok(vec![1, 2])).unwrap(), vec![1, 2]);
    let failure = blob_post(Err("disk full".to_string())).unwrap_err();
    assert_eq!(failure.status, Status::InternalServerError);
    assert_eq!(failure.message, "disk full");
}

#[test]
fn missing_blob_is_not_found() {
    assert_eq!(blob_get::<u8, ()>(Ok(5)).unwrap(), 5);
    let failure = blob_get::<u8, ()>(Err(())).unwrap_err();
    assert_eq!(failure.status, Status::NotFound);
    assert_eq!(failure.message, "Object not found");
}

#[test]
fn methods_are_listed() {
    assert_eq!(
        print_rpc_methods("/prpc", &["Info", "Admin.Run"]),
        vec!["methods under /prpc:", "    /prpc/Info", "    /prpc/Admin.Run"]
    );
    assert_eq!(print_rpc_methods("", &[]), vec!["methods under :"]);
}

#[test]
fn other_origins_are_allowed() {
    let options = cors_options();
    assert_eq!(options.allowed_origins, Allowed::All);
    assert_eq!(options.allowed_headers, Allowed::All);
    assert_eq!(options.allowed_methods, vec![HttpMethod::Get, HttpMethod::Post]);
    assert!(options.allow_credentials);
}

#[test]
fn cors_is_built() {
    let built = format!("{:?}", cors().unwrap());
    assert!(built.contains("allowed_origins: All"));
    assert!(built.contains("allowed_headers: All"));
    assert!(built.contains("allow_credentials: true"));
    assert!(built.contains("send_wildcard: false"));
    assert!(built.contains("Method(Get)"));
    assert!(built.contains("Method(Post)"));
    assert!(!built.contains("Method(Put)"));
    assert!(built.contains("expose_headers: {}"));
    assert!(built.contains("max_age: None"));
    assert!(built.contains("fairing_route_base: \"/cors\""));
    assert!(built.contains("fairing_route_rank: 0"));
}

#[test]
fn user_server_is_planned() {
    let plan = serve_user(&["Info"], Some(8001)).unwrap();
    assert_eq!(plan.announcement, vec!["methods under /prpc:", "    /prpc/Info"]);
    assert_eq!(plan.profile, "user");
    assert_eq!(plan.sources.len(), 4);
    assert!(matches!(plan.sources[0], ConfigSource::Defaults));
    assert!(matches!(plan.sources[1], ConfigSource::File { path: "Wapod.toml" }));
    assert!(matches!(plan.sources[2], ConfigSource::Environment { prefix: "WAPOD_USER_" }));
    assert!(matches!(plan.sources[3], ConfigSource::Port { port: 8001 }));
    assert_eq!(
        plan.fairings,
        vec![
            Fairing::Cors,
            Fairing::ResponseSigner { max_body_size: 10485760 },
            Fairing::RequestTracer,
            Fairing::TimeMeter,
        ]
    );
    assert_eq!(plan.api_token, None);
    assert_eq!(plan.mounts.len(), 2);
    assert_eq!(plan.mounts[0].base, "/");
    assert_eq!(plan.mounts[0].routes, vec![Route::ConnectVmGet, Route::ConnectVmPost]);
    assert_eq!(plan.mounts[1].base, "/prpc");
    assert_eq!(plan.mounts[1].routes, vec![Route::PrpcPost, Route::PrpcGet]);
}

#[test]
fn admin_server_is_planned() {
    let plan = serve_admin(&[], None, "secret word".to_string()).unwrap();
    assert_eq!(plan.announcement, vec!["methods under /prpc:"]);
    assert_eq!(plan.profile, "admin");
    assert_eq!(plan.sources.len(), 3);
    assert!(matches!(plan.sources[0], ConfigSource::Defaults));
    assert!(matches!(plan.sources[1], ConfigSource::File { path: "Wapod.toml" }));
    assert!(matches!(plan.sources[2], ConfigSource::Environment { prefix: "WAPOD_ADMIN_" }));
    assert_eq!(plan.fairings, vec![Fairing::Cors, Fairing::RequestTracer, Fairing::TimeMeter]);
    assert_eq!(plan.api_token, Some("secret word".to_string()));
    assert_eq!(plan.mounts.len(), 2);
    assert_eq!(plan.mounts[0].base, "/");
    assert_eq!(plan.mounts[0].routes, vec![Route::BlobPost, Route::BlobGet, Route::Console]);
    assert_eq!(plan.mounts[1].base, "/prpc");
    assert_eq!(plan.mounts[1].routes, vec![Route::PrpcAdminPost, Route::PrpcAdminGet]);
}

#[test]
fn servers_share_no_route() {
    let user = serve_user(&[], None).unwrap();
    let admin = serve_admin(&[], None, String::new()).unwrap();
    for mount in &user.mounts {
        for route in &mount.routes {
            assert!(admin.mounts.iter().all(|m| !m.routes.contains(route)));
        }
    }
}

/// The port that the sources give when they are merged in order, with a text in place of
/// the file and a value in place of the environment.
fn merged_port(sources: &[ConfigSource], toml: &str, variable: Option<u16>) -> u16 {
    let mut figment = Figment::new();
    for source in sources {
        figment = match source {
            ConfigSource::Defaults => figment.merge(rocket::Config::default()),
            ConfigSource::File { .. } => figment.merge(Toml::string(toml).nested()),
            ConfigSource::Environment { .. } => match variable {
                Some(port) => figment.merge(Serialized::global("port", port)),
                None => figment,
            },
            ConfigSource::Port { port } => figment.merge(("port", *port)),
        };
    }
    figment.select("user").extract_inner("port").unwrap()
}

#[test]
fn later_sources_go_first() {
    let given = config_sources("f", "P_", Some(1));
    let configured = config_sources("f", "P_", None);
    let file = "[user]\nport = 3\n[admin]\nport = 4\n";
    assert_eq!(merged_port(&given, file, Some(2)), 1);
    assert_eq!(merged_port(&configured, file, Some(2)), 2);
    assert_eq!(merged_port(&configured, file, None), 3);
    assert_eq!(merged_port(&configured, "[admin]\nport = 4\n", None), 8000);
}

#[test]
fn admin_routes_ask_for_the_token() {
    for route in [Route::BlobPost, Route::BlobGet, Route::PrpcAdminPost, Route::PrpcAdminGet] {
        assert!(asks_for_token(route));
    }
    for route in [
        Route::ConnectVmGet,
        Route::ConnectVmPost,
        Route::PrpcPost,
        Route::PrpcGet,
        Route::Console,
    ] {
        assert!(!asks_for_token(route));
    }
}

#[test]
fn routes_pass_requests_on() {
    let rpc = |service, with_body, json| Some(RouteCall::Rpc { service, with_body, json });
    for json in [false, true] {
        assert_eq!(call_of(Route::PrpcPost, json), rpc(RpcService::User, true, json));
        assert_eq!(call_of(Route::PrpcGet, json), rpc(RpcService::User, false, true));
        assert_eq!(call_of(Route::PrpcAdminPost, json), rpc(RpcService::Admin, true, json));
        assert_eq!(call_of(Route::PrpcAdminGet, json), rpc(RpcService::Admin, false, true));
        assert_eq!(
            call_of(Route::ConnectVmGet, json),
            Some(RouteCall::Connect { with_body: false })
        );
        assert_eq!(
            call_of(Route::ConnectVmPost, json),
            Some(RouteCall::Connect { with_body: true })
        );
        assert_eq!(call_of(Route::BlobPost, json), None);
        assert_eq!(call_of(Route::BlobGet, json), None);
        assert_eq!(call_of(Route::Console, json), None);
    }
}

#[test]
fn every_route_is_served_once() {
    let user = serve_user(&[], None).unwrap();
    let admin = serve_admin(&[], None, String::new()).unwrap();
    let all = [
        Route::ConnectVmGet,
        Route::ConnectVmPost,
        Route::PrpcPost,
        Route::PrpcGet,
        Route::BlobPost,
        Route::BlobGet,
        Route::Console,
        Route::PrpcAdminPost,
        Route::PrpcAdminGet,
    ];
    for route in all {
        let mounts = user.mounts.iter().chain(admin.mounts.iter());
        let count: usize = mounts.map(|m| m.routes.iter().filter(|r| **r == route).count()).sum();
        assert_eq!(count, 1);
    }
}

fn settings() -> WorkerSettings {
    WorkerSettings {
        instance_limit: 8,
        max_instances: 9,
        no_mem_pool: false,
        instance_memory_size: 1048576,
        module_cache_size: 16,
    }
}

#[test]
fn service_is_planned() {
    let plan = crate_worker_state::<()>(settings(), "blobs".to_string()).unwrap();
    assert_eq!(plan.threads, 10);
    assert_eq!(plan.module_cache_size, 16);
    assert_eq!(plan.blobs_dir, "blobs");
    assert_eq!(plan.instance_memory_size, 1048576);
    assert_eq!(plan.pooled_instances, 9);
}

#[test]
fn service_without_pool() {
    let plan = crate_worker_state::<()>(
        WorkerSettings { no_mem_pool: true, instance_limit: usize::MAX - 1, ..settings() },
        String::new(),
    )
    .unwrap();
    assert_eq!(plan.pooled_instances, 0);
    assert_eq!(plan.threads, usize::MAX);
}

#[test]
fn service_failures_have_their_context() {
    let error = u8::try_from(256u16).unwrap_err();
    assert_eq!(WorkerFailure::<()>::MemorySize(error).context(), "invalid memory size");
    match created_service::<u8, u8>(Err(1)) {
        Err(failure) => {
            assert_eq!(failure.context(), "failed to create service");
            assert!(matches!(failure, WorkerFailure::Service(1)));
        }
        Ok(_) => panic!("the failure is lost"),
    }
    assert!(matches!(created_service::<u8, u8>(Ok(4)), Ok(4)));
}

#[test]
fn memory_size_must_be_addressable() {
    let large = WorkerSettings { instance_memory_size: u64::MAX, ..settings() };
    let plan = crate_worker_state::<()>(large, String::new());
    if usize::MAX as u64 == u64::MAX {
        assert_eq!(plan.unwrap().instance_memory_size as u64, u64::MAX);
    } else {
        assert!(matches!(plan, Err(WorkerFailure::MemorySize(_))));
    }
}
