//! The configuration of the control plane, and how its tasks live and end.

use sleepypods_control_plane::api::admission::ApiLimits;
use sleepypods_control_plane::duration::Duration;
use sleepypods_control_plane::gauges::{operational_gauges, Gauge};
use sleepypods_control_plane::materialization::{
    MaterializationBacklogOperationalMetrics, MaterializationHeldKeysOperationalMetrics,
    MaterializationOperationalMetrics, MaterializationState,
};
use sleepypods_control_plane::auth::{AuthConfig, CallerRole, InvalidStaticBearerTokens};
use sleepypods_control_plane::config::{
    StoreProviderConfig, StoreProviderName, MAX_CONNECTIONS, MAX_IDEMPOTENCY_RETENTION_MILLIS,
    MAX_TIMEOUT_MILLIS,
};
use sleepypods_control_plane::listeners::{
    carried_apis, is_native, planned_listeners, required_role, runtime_materializer, ListenerKind,
    ServedApi,
};
use sleepypods_control_plane::materializer::KubernetesMaterializer;
use sleepypods_control_plane::net::parse_socket;
use sleepypods_control_plane::runtime::{
    count_failure, dispatch_step, materializer_with_runtime_auth, supervise_verdict,
    DispatchEvent, DispatchLoad, DispatchState, RunEnd, RuntimeConfig, RuntimeConfigError,
    TaskOutcome, AUTH_MODE_ENV, AUTH_OPERATOR_TOKEN_ENV, AUTH_PROXY_TOKEN_ENV,
    AUTH_SIDECAR_TOKEN_ENV, CLUSTER_ID_ENV, CONTROL_PLANE_LISTEN_ADDR_ENV,
    METRICS_LISTEN_ADDR_ENV, NAMESPACE_ENV, OPERATOR_GRPC_WEB_LISTEN_ADDR_ENV,
    OPERATOR_LISTEN_ADDR_ENV, POSTGRES_URL_ENV, STORE_PROVIDER_ENV,
};

fn from_key_values(values: Vec<(&str, &str)>) -> Result<RuntimeConfig, RuntimeConfigError> {
    RuntimeConfig::from_key_values(
        values
            .into_iter()
            .map(|(key, value)| (key.to_owned(), value.to_owned()))
            .collect(),
    )
}

#[test]
fn postgres_runtime_settings_are_explicit_and_positive() {
    let mut env = valid_env();
    env.extend([
        ("SLEEPYPODS_POSTGRES_MAX_CONNECTIONS", "1"),
        ("SLEEPYPODS_POSTGRES_POOL_WAIT_TIMEOUT_MS", "123"),
        ("SLEEPYPODS_POSTGRES_CONNECTION_TIMEOUT_MS", "456"),
        ("SLEEPYPODS_POSTGRES_STATEMENT_TIMEOUT_MS", "789"),
        ("SLEEPYPODS_POSTGRES_IDEMPOTENCY_RETENTION_MS", "60000"),
    ]);
    let config = from_key_values(env).unwrap();
    let StoreProviderConfig::Postgres(config) = config.control_plane.store;
    assert_eq!(config.max_connections, 1);
    assert_eq!(config.pool_wait_timeout.as_millis(), 123);
    assert_eq!(config.connection_timeout.as_millis(), 456);
    assert_eq!(config.statement_timeout.as_millis(), 789);
    assert_eq!(config.idempotency_retention.unwrap().as_millis(), 60000);
    for invalid in ["0", "-1", "abc", "18446744073709551615"] {
        let mut env = valid_env();
        env.push(("SLEEPYPODS_POSTGRES_MAX_CONNECTIONS", invalid));
        assert!(matches!(
            from_key_values(env),
            Err(RuntimeConfigError::InvalidPostgresSetting { .. })
        ));
    }
    let config = from_key_values(valid_env()).unwrap();
    let StoreProviderConfig::Postgres(config) = config.control_plane.store;
    assert_eq!(config.idempotency_retention, None);
}

#[test]
fn postgres_runtime_settings_enforce_the_programmatic_limits() {
    for (name, maximum) in [
        (
            "SLEEPYPODS_POSTGRES_MAX_CONNECTIONS",
            MAX_CONNECTIONS as u128,
        ),
        (
            "SLEEPYPODS_POSTGRES_POOL_WAIT_TIMEOUT_MS",
            MAX_TIMEOUT_MILLIS as u128,
        ),
        (
            "SLEEPYPODS_POSTGRES_CONNECTION_TIMEOUT_MS",
            MAX_TIMEOUT_MILLIS as u128,
        ),
        (
            "SLEEPYPODS_POSTGRES_STATEMENT_TIMEOUT_MS",
            MAX_TIMEOUT_MILLIS as u128,
        ),
        (
            "SLEEPYPODS_POSTGRES_IDEMPOTENCY_RETENTION_MS",
            MAX_IDEMPOTENCY_RETENTION_MILLIS as u128,
        ),
    ] {
        for value in [1, maximum] {
            let value = value.to_string();
            let mut env = valid_env();
            env.push((name, &value));
            assert!(
                from_key_values(env).is_ok(),
                "{name}={value}"
            );
        }
        for value in [
            "0".to_owned(),
            "-1".to_owned(),
            "1.5".to_owned(),
            (maximum + 1).to_string(),
            i64::MAX.to_string(),
            u64::MAX.to_string(),
        ] {
            let mut env = valid_env();
            env.push((name, &value));
            assert!(
                matches!(from_key_values(env),
                Err(RuntimeConfigError::InvalidPostgresSetting { name: actual }) if actual == name),
                "{name}={value}"
            );
        }
    }
}

#[test]
fn env_config_requires_the_operator_listen_addr() {
    assert!(matches!(
        from_key_values(valid_env_without(OPERATOR_LISTEN_ADDR_ENV)),
        Err(RuntimeConfigError::MissingEnv {
            name: OPERATOR_LISTEN_ADDR_ENV
        })
    ));
}

#[test]
fn subscription_lifetime_reaches_past_the_request_timeout_cap() {
    let name = "SLEEPYPODS_CONTROL_PLANE_SUBSCRIPTION_LIFETIME_MS";

    for value in ["1", "60000", "300000", "600000"] {
        let mut env = valid_env();
        env.push((name, value));
        assert!(
            from_key_values(env).is_ok(),
            "{name}={value}"
        );
    }

    for value in ["0", "-1", "1.5", "600001"] {
        let mut env = valid_env();
        env.push((name, value));
        assert!(
            matches!(from_key_values(env),
            Err(RuntimeConfigError::InvalidPostgresSetting { name: actual }) if actual == name),
            "{name}={value}"
        );
    }
}

#[test]
fn request_scoped_timeouts_stay_within_a_minute() {
    for name in [
        "SLEEPYPODS_CONTROL_PLANE_UNARY_DELIVERY_TIMEOUT_MS",
        "SLEEPYPODS_CONTROL_PLANE_SETUP_TIMEOUT_MS",
        "SLEEPYPODS_CONTROL_PLANE_WRITE_TIMEOUT_MS",
        "SLEEPYPODS_CONTROL_PLANE_LOOKUP_TIMEOUT_MS",
        "SLEEPYPODS_CONTROL_PLANE_RESPONSE_TIMEOUT_MS",
    ] {
        let mut env = valid_env();
        env.push((name, "60000"));
        assert!(from_key_values(env).is_ok(), "{name}=60000");

        let mut env = valid_env();
        env.push((name, "60001"));
        assert!(
            matches!(from_key_values(env),
            Err(RuntimeConfigError::InvalidPostgresSetting { name: actual }) if actual == name),
            "{name}=60001"
        );
    }
}

#[test]
fn env_config_requires_listen_addr() {
    let error =
        from_key_values(valid_env_without(CONTROL_PLANE_LISTEN_ADDR_ENV))
            .expect_err("listen address is required");

    assert!(matches!(
        error,
        RuntimeConfigError::MissingEnv {
            name: CONTROL_PLANE_LISTEN_ADDR_ENV
        }
    ));
}

#[test]
fn env_config_rejects_unknown_store_provider() {
    let error = from_key_values(
        valid_env()
            .into_iter()
            .map(|(key, value)| {
                if key == STORE_PROVIDER_ENV {
                    (key, "sqlite")
                } else {
                    (key, value)
                }
            })
            .collect::<Vec<_>>(),
    )
    .expect_err("unknown store provider is invalid");

    assert!(matches!(
        error,
        RuntimeConfigError::InvalidStoreProvider { value } if value == "sqlite"
    ));
}

#[test]
fn env_config_rejects_invalid_native_listen_addr() {
    let error = from_key_values(
        valid_env()
            .into_iter()
            .map(|(key, value)| {
                if key == CONTROL_PLANE_LISTEN_ADDR_ENV {
                    (key, "localhost")
                } else {
                    (key, value)
                }
            })
            .collect::<Vec<_>>(),
    )
    .expect_err("invalid listen address is rejected");

    assert!(matches!(
        error,
        RuntimeConfigError::InvalidListenAddr {
            name: CONTROL_PLANE_LISTEN_ADDR_ENV,
            value,
            ..
        } if value == "localhost"
    ));
}

#[test]
fn env_config_defaults_grpc_web_listener_to_absent() {
    let config = from_key_values(valid_env())
        .expect("valid config without grpc-web listener");

    assert_eq!(config.operator_grpc_web_listen_addr, None);
}

#[test]
fn env_config_accepts_optional_grpc_web_listener() {
    let mut values = valid_env();
    values.push((OPERATOR_GRPC_WEB_LISTEN_ADDR_ENV, "127.0.0.1:50052"));

    let config = from_key_values(values).expect("valid config");

    assert_eq!(
        config.operator_grpc_web_listen_addr,
        Some(parse_socket("127.0.0.1:50052").expect("socket address"))
    );
}

#[test]
fn env_config_defaults_metrics_listener_to_absent() {
    let config = from_key_values(valid_env())
        .expect("valid config without metrics listener");

    assert_eq!(config.metrics_listen_addr, None);
}

#[test]
fn env_config_accepts_optional_metrics_listener() {
    let mut values = valid_env();
    values.push((METRICS_LISTEN_ADDR_ENV, "127.0.0.1:19090"));

    let config = from_key_values(values).expect("valid config");

    assert_eq!(
        config.metrics_listen_addr,
        Some(parse_socket("127.0.0.1:19090").expect("socket address"))
    );
}

#[test]
fn env_config_parses_valid_config() {
    let config = from_key_values(valid_env()).expect("valid config");

    assert_eq!(
        config.listen_addr,
        parse_socket("127.0.0.1:50051").expect("socket address")
    );
    assert_eq!(config.target.cluster_id(), "cluster-a");
    assert_eq!(config.target.namespace(), "apps");
    assert_eq!(
        config.control_plane.store.provider_name(),
        StoreProviderName::Postgres
    );
    assert_eq!(config.control_plane.auth, AuthConfig::NoAuth);
}

#[test]
fn env_config_requires_explicit_auth_mode() {
    let error = from_key_values(valid_env_without(AUTH_MODE_ENV))
        .expect_err("auth mode is required");

    assert!(matches!(
        error,
        RuntimeConfigError::MissingEnv {
            name: AUTH_MODE_ENV
        }
    ));
}

#[test]
fn env_config_parses_static_bearer_token_auth() {
    let config = from_key_values(static_auth_env()).expect("valid config");
    let AuthConfig::StaticBearerTokens(tokens) = config.control_plane.auth else {
        panic!("expected static bearer token config");
    };

    assert_eq!(
        tokens
            .token_for(CallerRole::Operator)
            .authorization_header_value(),
        "Bearer operator-secret"
    );
    assert_eq!(
        tokens
            .token_for(CallerRole::Proxy)
            .authorization_header_value(),
        "Bearer proxy-secret"
    );
    assert_eq!(
        tokens
            .token_for(CallerRole::Sidecar)
            .authorization_header_value(),
        "Bearer sidecar-secret"
    );
}

#[test]
fn serve_materializer_gets_sidecar_token_from_runtime_auth_config() {
    let config = from_key_values(static_auth_env()).expect("valid config");
    let materializer = materializer_with_runtime_auth(
        KubernetesMaterializer::new(()),
        &config.control_plane.auth,
    );

    let token = materializer
        .sidecar_control_plane_token()
        .expect("static auth sidecar token is attached to materializer");

    assert_eq!(
        token
            .authorization_header_value(),
        "Bearer sidecar-secret"
    );
}

#[test]
fn env_config_static_auth_fails_closed_when_credentials_are_missing() {
    let error = from_key_values(
        static_auth_env()
            .into_iter()
            .filter(|(key, _)| *key != AUTH_PROXY_TOKEN_ENV)
            .collect::<Vec<_>>(),
    )
    .expect_err("missing proxy token is rejected");

    assert!(matches!(
        error,
        RuntimeConfigError::MissingEnv {
            name: AUTH_PROXY_TOKEN_ENV
        }
    ));
}

#[test]
fn env_config_static_auth_rejects_malformed_env_tokens() {
    let error = from_key_values(
        static_auth_env()
            .into_iter()
            .map(|(key, value)| {
                if key == AUTH_OPERATOR_TOKEN_ENV {
                    (key, "has space")
                } else {
                    (key, value)
                }
            })
            .collect::<Vec<_>>(),
    )
    .expect_err("malformed token is rejected");

    assert!(matches!(
        error,
        RuntimeConfigError::InvalidAuthConfig(InvalidStaticBearerTokens::InvalidToken {
            role: CallerRole::Operator,
            ..
        })
    ));
}

#[test]
fn env_config_static_auth_requires_distinct_role_tokens() {
    let error = from_key_values(
        static_auth_env()
            .into_iter()
            .map(|(key, value)| {
                if key == AUTH_SIDECAR_TOKEN_ENV {
                    (key, "proxy-secret")
                } else {
                    (key, value)
                }
            })
            .collect::<Vec<_>>(),
    )
    .expect_err("duplicate role tokens are rejected");

    assert!(matches!(
        error,
        RuntimeConfigError::InvalidAuthConfig(InvalidStaticBearerTokens::DuplicateToken {
            first: CallerRole::Proxy,
            second: CallerRole::Sidecar
        })
    ));
}

#[test]
fn certificate_runtime_requires_tls_auth_and_reserved_database_capacity() {
    let extra = [
        (
            "SLEEPYPODS_CONTROL_PLANE_TLS_CERT_FILE",
            "/test/identity.pem",
        ),
        (
            "SLEEPYPODS_CONTROL_PLANE_TLS_KEY_FILE",
            "/test/identity.key",
        ),
        (
            "SLEEPYPODS_CONTROL_PLANE_PUBLIC_ENDPOINT",
            "https://cp.platform.example:50051",
        ),
        (
            "SLEEPYPODS_CERTIFICATE_SEALING_KEYS_FILE",
            "/test/sealing.json",
        ),
    ];
    let mut values = static_auth_env();
    values.extend(extra);
    assert!(from_key_values(values.clone()).is_ok());
    values.push(("SLEEPYPODS_POSTGRES_MAX_CONNECTIONS", "1"));
    assert!(matches!(
        from_key_values(values),
        Err(RuntimeConfigError::InvalidSecurity(_))
    ));
    for omitted in [
        "SLEEPYPODS_CONTROL_PLANE_TLS_KEY_FILE",
        "SLEEPYPODS_CONTROL_PLANE_PUBLIC_ENDPOINT",
    ] {
        let mut values = static_auth_env();
        values.extend(extra.into_iter().filter(|(k, _)| *k != omitted));
        assert!(matches!(
            from_key_values(values),
            Err(RuntimeConfigError::InvalidSecurity(_))
        ));
    }
    let mut values = valid_env();
    values.extend(extra);
    assert!(matches!(
        from_key_values(values),
        Err(RuntimeConfigError::InvalidSecurity(_))
    ));
}

fn valid_env() -> Vec<(&'static str, &'static str)> {
    vec![
        (CONTROL_PLANE_LISTEN_ADDR_ENV, "127.0.0.1:50051"),
        (OPERATOR_LISTEN_ADDR_ENV, "127.0.0.1:50053"),
        (STORE_PROVIDER_ENV, "postgres"),
        (
            POSTGRES_URL_ENV,
            "postgres://sleepypods@example.com/sleepypods",
        ),
        (CLUSTER_ID_ENV, "cluster-a"),
        (NAMESPACE_ENV, "apps"),
        (AUTH_MODE_ENV, "no-auth"),
    ]
}

fn static_auth_env() -> Vec<(&'static str, &'static str)> {
    valid_env()
        .into_iter()
        .map(|(key, value)| {
            if key == AUTH_MODE_ENV {
                (key, "static-bearer-token")
            } else {
                (key, value)
            }
        })
        .chain([
            (AUTH_OPERATOR_TOKEN_ENV, "operator-secret"),
            (AUTH_PROXY_TOKEN_ENV, "proxy-secret"),
            (AUTH_SIDECAR_TOKEN_ENV, "sidecar-secret"),
        ])
        .collect()
}

fn valid_env_without(name: &str) -> Vec<(&'static str, &'static str)> {
    valid_env()
        .into_iter()
        .filter(|(key, _)| *key != name)
        .collect()
}

#[test]
fn the_last_value_of_a_name_counts() {
    let mut env = valid_env();
    env.push((CLUSTER_ID_ENV, "cluster-b"));
    let config = from_key_values(env).expect("valid config");

    assert_eq!(config.target.cluster_id(), "cluster-b");
}

#[test]
fn a_blank_value_counts_as_missing() {
    let mut env = valid_env_without(NAMESPACE_ENV);
    env.push((NAMESPACE_ENV, " \t"));

    assert!(matches!(
        from_key_values(env),
        Err(RuntimeConfigError::MissingEnv {
            name: NAMESPACE_ENV
        })
    ));
}

#[test]
fn the_listeners_are_checked_before_the_store() {
    let mut env = valid_env_without(STORE_PROVIDER_ENV);
    env.retain(|(key, _)| *key != OPERATOR_LISTEN_ADDR_ENV);

    assert!(matches!(
        from_key_values(env),
        Err(RuntimeConfigError::MissingEnv {
            name: OPERATOR_LISTEN_ADDR_ENV
        })
    ));
}

#[test]
fn auth_mode_is_read_without_regard_to_case_or_surrounding_space() {
    let mut env = valid_env_without(AUTH_MODE_ENV);
    env.push((AUTH_MODE_ENV, "  No-Auth "));
    assert_eq!(
        from_key_values(env).expect("valid config").control_plane.auth,
        AuthConfig::NoAuth
    );

    let mut env = valid_env_without(AUTH_MODE_ENV);
    env.push((AUTH_MODE_ENV, "mtls"));
    let error = from_key_values(env).expect_err("unknown mode");
    assert_eq!(
        error.to_text(),
        "SLEEPYPODS_CONTROL_PLANE_AUTH_MODE value \"mtls\" is not supported"
    );
}

#[test]
fn configuration_errors_are_told_in_sentences() {
    assert_eq!(
        from_key_values(valid_env_without(POSTGRES_URL_ENV))
            .expect_err("missing")
            .to_text(),
        "SLEEPYPODS_POSTGRES_URL is required"
    );

    let mut env = valid_env();
    env.push((METRICS_LISTEN_ADDR_ENV, "local\thost"));
    assert_eq!(
        from_key_values(env).expect_err("no address").to_text(),
        "SLEEPYPODS_CONTROL_PLANE_METRICS_LISTEN_ADDR value \"local\\thost\" is not a valid \
         listen address: invalid socket address syntax"
    );

    let mut env = valid_env();
    env.push(("SLEEPYPODS_CONTROL_PLANE_MAX_RPCS", "4097"));
    assert_eq!(
        from_key_values(env).expect_err("too many").to_text(),
        "SLEEPYPODS_CONTROL_PLANE_MAX_RPCS must be a positive integer within the documented \
         Postgres setting limits"
    );

    let mut env = valid_env_without(STORE_PROVIDER_ENV);
    env.push((STORE_PROVIDER_ENV, "sqlite"));
    assert_eq!(
        from_key_values(env).expect_err("unknown store").to_text(),
        "SLEEPYPODS_STORE_PROVIDER value \"sqlite\" is not supported"
    );
}

#[test]
fn accepted_limits_replace_the_defaults() {
    let mut env = valid_env();
    env.extend([
        ("SLEEPYPODS_CONTROL_PLANE_MAX_CONNECTIONS", "4096"),
        ("SLEEPYPODS_CONTROL_PLANE_MAX_SUBSCRIPTION_STREAMS", "1024"),
        ("SLEEPYPODS_CONTROL_PLANE_LOOKUP_TIMEOUT_MS", "+250"),
    ]);
    let limits = from_key_values(env).expect("valid config").api_limits;

    assert_eq!(limits.accepted_connections, 4096);
    assert_eq!(limits.subscription_streams, 1024);
    assert_eq!(limits.lookup_timeout.as_millis(), 250);
    assert_eq!(limits.rpc_concurrency, 128);
    assert_eq!(limits.subscription_lifetime.as_millis(), 60_000);
    assert_eq!(limits.positive_route_cache_ttl.as_millis(), 120_000);
}

#[test]
fn cached_answers_outlive_the_stream_that_brought_them() {
    let limits = ApiLimits::default();
    assert!(
        limits.positive_route_cache_ttl.as_millis() > limits.subscription_lifetime.as_millis()
    );
}

#[test]
fn a_task_gives_up_after_five_failures_in_a_row() {
    let mut failures = 0;
    for succeeded in [false, false, true, false, false, false, false] {
        let (counted, stop) = count_failure(failures, succeeded);
        assert!(!stop);
        failures = counted;
    }
    assert_eq!(count_failure(failures, false), (5, true));
}

#[test]
fn dispatch_begins_at_the_newest_revision_and_resets_after_a_failed_read() {
    let state = DispatchState::begin();
    assert_eq!(state.next_load(), DispatchLoad::Revision);

    let failed = dispatch_step(&state, DispatchEvent::Failed);
    assert!(!failed.reset, "nobody has been told anything yet");
    assert_eq!(failed.state.failures, 1);

    let step = dispatch_step(&failed.state, DispatchEvent::Revision(41));
    assert_eq!(step.state.cursor, Some(41));
    assert_eq!(step.state.failures, 0);
    assert!(!step.publish);
    assert_eq!(
        step.state.next_load(),
        DispatchLoad::Changes {
            from: 41,
            limit: 1024
        }
    );

    let step = dispatch_step(
        &step.state,
        DispatchEvent::Changes {
            reset: false,
            cursor: 44,
        },
    );
    assert!(step.publish && !step.reset);
    assert_eq!(step.state.cursor, Some(44));

    let step = dispatch_step(&step.state, DispatchEvent::Failed);
    assert!(step.reset && !step.publish && !step.stop);
    assert_eq!(step.state.cursor, Some(44));
}

#[test]
fn a_run_ends_with_its_first_error() {
    let failed = |text: &str| TaskOutcome::Failed(text.to_owned());

    assert_eq!(
        supervise_verdict(RunEnd::Signal, vec![TaskOutcome::Finished], true),
        None
    );
    assert_eq!(
        supervise_verdict(
            RunEnd::Signal,
            vec![TaskOutcome::Finished, failed("failure while draining"), failed("later")],
            false
        ),
        Some("failure while draining".to_owned())
    );
    assert_eq!(
        supervise_verdict(
            RunEnd::Task(failed("critical dispatcher failure")),
            vec![failed("later")],
            true
        ),
        Some("critical dispatcher failure".to_owned())
    );
    assert_eq!(
        supervise_verdict(RunEnd::Task(TaskOutcome::Finished), vec![], true),
        Some("critical runtime task exited unexpectedly".to_owned())
    );
    assert_eq!(
        supervise_verdict(RunEnd::Signal, vec![TaskOutcome::Finished], false),
        Some("runtime shutdown deadline exceeded".to_owned())
    );
}

#[test]
fn materialization_operational_metrics_make_stuck_work_alertable_by_state() {
    let mut metrics = MaterializationOperationalMetrics::new(
        vec![
            MaterializationBacklogOperationalMetrics::new(
                MaterializationState::Pending,
                2,
                Some(Duration::from_secs(11)),
            ),
            MaterializationBacklogOperationalMetrics::new(
                MaterializationState::Deleting,
                1,
                Some(Duration::from_secs(7)),
            ),
        ],
        vec![
            MaterializationHeldKeysOperationalMetrics::new(MaterializationState::Ready, 3),
            MaterializationHeldKeysOperationalMetrics::new(MaterializationState::Failed, 1),
        ],
    );
    metrics.uncertain_effects = 5;
    let gauges = operational_gauges(Some(&metrics));

    let last = |told: &dyn Fn(&Gauge) -> Option<u128>| gauges.iter().rev().find_map(told);
    let waiting = |wanted: MaterializationState| {
        last(&|gauge: &Gauge| match gauge {
            Gauge::Nonterminal { state, count } if *state == wanted => Some(u128::from(*count)),
            _ => None,
        })
    };
    let age = |wanted: MaterializationState| {
        last(&|gauge: &Gauge| match gauge {
            Gauge::OldestAge { state, age } if *state == wanted => Some(age.as_millis()),
            _ => None,
        })
    };
    let held = |wanted: MaterializationState| {
        last(&|gauge: &Gauge| match gauge {
            Gauge::KeysHeld { state, count } if *state == wanted => Some(u128::from(*count)),
            _ => None,
        })
    };
    assert_eq!(waiting(MaterializationState::Pending), Some(2));
    assert_eq!(waiting(MaterializationState::Deleting), Some(1));
    assert_eq!(age(MaterializationState::Pending), Some(11_000));
    assert_eq!(age(MaterializationState::Deleting), Some(7_000));
    assert_eq!(waiting(MaterializationState::Ready), None);
    assert_eq!(age(MaterializationState::Ready), None);
    assert_eq!(held(MaterializationState::Pending), Some(0));
    assert_eq!(held(MaterializationState::Deleting), Some(0));
    assert_eq!(held(MaterializationState::Ready), Some(3));
    assert_eq!(held(MaterializationState::Failed), Some(1));
    assert!(gauges.contains(&Gauge::UncertainEffects { count: 5 }));
    assert!(gauges.contains(&Gauge::BlockedFailures { count: 0 }));
}

#[test]
fn states_are_shown_empty_where_nothing_could_be_read() {
    let gauges = operational_gauges(None);
    assert_eq!(gauges.len(), 8);
    assert!(gauges.contains(&Gauge::Nonterminal {
        state: MaterializationState::Deleting,
        count: 0
    }));
}

#[test]
fn operators_are_never_served_where_workloads_are() {
    let mut env = valid_env();
    env.push((OPERATOR_GRPC_WEB_LISTEN_ADDR_ENV, "127.0.0.1:50053"));
    let config = from_key_values(env).unwrap();
    let listeners = planned_listeners(&config);
    let kinds: Vec<ListenerKind> = listeners.iter().map(|listener| listener.kind).collect();
    assert_eq!(
        kinds,
        [
            ListenerKind::Workload,
            ListenerKind::Operator,
            ListenerKind::OperatorWeb
        ]
    );
    assert_eq!(listeners[0].address, config.listen_addr);
    assert_eq!(listeners[1].address, config.operator_listen_addr);
    assert_eq!(
        carried_apis(ListenerKind::Workload),
        [ServedApi::Proxy, ServedApi::Sidecar]
    );
    for kind in [ListenerKind::Operator, ListenerKind::OperatorWeb] {
        assert_eq!(carried_apis(kind), [ServedApi::Operator]);
    }
    assert_eq!(required_role(ServedApi::Sidecar), CallerRole::Sidecar);
    assert!(is_native(ListenerKind::Operator));
    assert!(!is_native(ListenerKind::OperatorWeb));
}

#[test]
fn sidecars_are_told_how_to_reach_the_process() {
    let mut config = from_key_values(static_auth_env()).unwrap();
    config.security.public_endpoint = Some("https://control.example:443".to_owned());
    config.security.ca_pem = Some("ca".to_owned());
    let materializer = runtime_materializer(KubernetesMaterializer::new(()), &config);
    let options = materializer.render_options();
    assert_eq!(
        options.sidecar_control_plane_token,
        config.control_plane.auth.sidecar_bearer_token()
    );
    assert!(options.sidecar_control_plane_token.is_some());
    assert_eq!(
        options.sidecar_control_plane_endpoint,
        Some("https://control.example:443")
    );
    assert_eq!(options.sidecar_control_plane_ca, Some("ca"));
}
