//! What the materializer makes of the cluster's objects and answers.

use sleepypods_control_plane::backend::{BackendAddress, BackendEndpoint};
use sleepypods_control_plane::duration::Duration;
use sleepypods_control_plane::kube_materializer::{
    api_resource_for_ref, backend_endpoint_for_service, endpoint_slice_has_ready_endpoint,
    is_not_found, is_valid_uri_scheme, kube_error, readiness_inspection_for_service,
    ready_backend_address, rendered_service_ref, KubeFailure, KubeFailureKind,
    KubeMaterializerClientConfig, LiveEndpoint, LiveEndpointSlice, LiveOwner, LiveService,
};
use sleepypods_control_plane::materialization::RenderedObjectRef;
use sleepypods_control_plane::projection::ProjectionReadinessInspection;
use sleepypods_control_plane::string_map::StringMap;

/// A failure as the client reports it: its sentence is the message and the reason.
fn failure(code: u16, reason: &str, message: &str) -> KubeFailure {
    KubeFailure {
        kind: KubeFailureKind::Api {
            code,
            reason: reason.to_owned(),
        },
        message: format!("{message}: {reason}"),
    }
}

#[test]
fn maps_rendered_refs_to_api_resources() {
    let cases = [
        (
            object_ref("apps/v1", "Deployment", "apps", "app-a"),
            ("apps", "v1", "apps/v1", "Deployment", "deployments"),
        ),
        (
            object_ref("apps/v1", "StatefulSet", "data", "db-a"),
            ("apps", "v1", "apps/v1", "StatefulSet", "statefulsets"),
        ),
        (
            object_ref("v1", "Service", "apps", "svc-a"),
            ("", "v1", "v1", "Service", "services"),
        ),
        (
            object_ref("v1", "PersistentVolume", "", "pv-a"),
            ("", "v1", "v1", "PersistentVolume", "persistentvolumes"),
        ),
        (
            object_ref("v1", "PersistentVolumeClaim", "data", "pvc-a"),
            (
                "",
                "v1",
                "v1",
                "PersistentVolumeClaim",
                "persistentvolumeclaims",
            ),
        ),
    ];

    for (object, expected) in cases {
        let resource = api_resource_for_ref(&object).expect("supported API resource");

        assert_eq!(
            (
                resource.group.as_str(),
                resource.version.as_str(),
                resource.api_version.as_str(),
                resource.kind.as_str(),
                resource.plural.as_str(),
            ),
            expected
        );
    }
}

#[test]
fn rejects_namespaced_persistent_volume_ref() {
    let error = api_resource_for_ref(&object_ref("v1", "PersistentVolume", "data", "pv-a"))
        .expect_err("PV is cluster scoped");

    assert!(error
        .message()
        .contains("unsupported rendered Kubernetes object"));
}

#[test]
fn default_config_uses_http_service_backend_uri() {
    let service = service("api", "apps", [80, 8080]);
    let config = KubeMaterializerClientConfig::default();

    let backend = backend_endpoint_for_service(&service, &config, None)
        .expect("service backend endpoint");

    assert_eq!(backend.uri(), "http://api.apps.svc.cluster.local:80");
    assert_eq!(backend.address(), None);
}

#[test]
fn configurable_scheme_changes_service_backend_uri() {
    let service = service("postgres", "data", [5432]);
    let config = KubeMaterializerClientConfig {
        backend_scheme: "tcp".to_owned(),
        ..KubeMaterializerClientConfig::default()
    };

    let backend = backend_endpoint_for_service(&service, &config, None)
        .expect("service backend endpoint");

    assert_eq!(backend.uri(), "tcp://postgres.data.svc.cluster.local:5432");
}

#[test]
fn service_annotation_overrides_default_backend_scheme() {
    let mut service = service("passthrough", "apps", [9443]);
    service.annotations = StringMap::from_pairs(vec![(
        "sleepypods.io/backend-scheme".to_owned(),
        "tcp".to_owned(),
    )]);
    let config = KubeMaterializerClientConfig::default();

    let backend = backend_endpoint_for_service(&service, &config, None)
        .expect("service backend endpoint");

    assert_eq!(
        backend.uri(),
        "tcp://passthrough.apps.svc.cluster.local:9443"
    );
}

#[test]
fn endpoint_slice_ready_defaults_match_kubernetes_semantics() {
    let service = service("api", "apps", [80]);
    assert!(endpoint_slice_has_ready_endpoint(
        &service,
        &endpoint_slice([None])
    ));
    assert!(endpoint_slice_has_ready_endpoint(
        &service,
        &endpoint_slice([Some(true)])
    ));
    assert!(!endpoint_slice_has_ready_endpoint(
        &service,
        &endpoint_slice([Some(false)])
    ));
}

#[test]
fn readiness_inspection_reports_ready_endpoint_without_polling() {
    let service = service("api", "apps", [80]);
    let config = KubeMaterializerClientConfig::default();

    let inspection =
        readiness_inspection_for_service(&service, &vec![endpoint_slice([Some(true)])], &config);

    assert_eq!(
        inspection,
        ProjectionReadinessInspection::Ready(
            BackendEndpoint::new("http://api.apps.svc.cluster.local:80")
                .expect("backend endpoint")
        )
    );
}

#[test]
fn readiness_inspection_reports_absent_ready_endpoints() {
    let service = service("api", "apps", [80]);
    let config = KubeMaterializerClientConfig::default();

    let inspection = readiness_inspection_for_service(
        &service,
        &vec![endpoint_slice([Some(false)]), endpoint_slice([])],
        &config,
    );

    assert_eq!(
        inspection,
        ProjectionReadinessInspection::Unready {
            reason: "no_ready_endpoints".to_owned()
        }
    );
}

#[test]
fn readiness_inspection_reports_invalid_service_backend_as_unready() {
    let service = service("api", "apps", [0]);
    let config = KubeMaterializerClientConfig::default();

    let inspection =
        readiness_inspection_for_service(&service, &vec![endpoint_slice([Some(true)])], &config);

    assert_eq!(
        inspection,
        ProjectionReadinessInspection::Unready {
            reason: "backend_endpoint_invalid".to_owned()
        }
    );
}

#[test]
fn validates_timeout_configuration() {
    let config = KubeMaterializerClientConfig {
        poll_interval: Duration::zero(),
        ..KubeMaterializerClientConfig::default()
    };

    let error = config.validate().expect_err("zero poll interval rejected");

    assert_eq!(error.field(), "poll_interval");
}

#[test]
fn validates_backend_scheme_configuration() {
    assert!(is_valid_uri_scheme("http"));
    assert!(is_valid_uri_scheme("tcp"));
    assert!(is_valid_uri_scheme("h2c+unix"));

    for backend_scheme in ["", " ", "1http", "http://", "tcp:"] {
        let config = KubeMaterializerClientConfig {
            backend_scheme: backend_scheme.to_owned(),
            ..KubeMaterializerClientConfig::default()
        };

        let error = config
            .validate()
            .expect_err("invalid backend scheme rejected");

        assert_eq!(error.field(), "backend_scheme");
    }
}

#[test]
fn delete_treats_not_found_as_success() {
    let error = failure(404, "NotFound", "");

    assert!(is_not_found(&error));
}

#[test]
fn kube_conflict_errors_are_retryable_materializer_errors() {
    let error = kube_error(&failure(409, "Conflict", "resource version conflict"));

    assert!(error.is_retryable());
    assert!(error.message().contains("resource version conflict"));
}

#[test]
fn kube_invalid_errors_are_permanent_materializer_errors() {
    let error = kube_error(&failure(422, "Invalid", "manifest is invalid"));

    assert!(!error.is_retryable());
    assert!(error.message().contains("manifest is invalid"));
}

#[test]
fn finds_rendered_service_ref_for_readiness() {
    let refs = vec![
        object_ref("apps/v1", "Deployment", "apps", "app-a"),
        object_ref("v1", "Service", "apps", "svc-a"),
    ];

    let service = rendered_service_ref(&refs).expect("service ref");

    assert_eq!(service.name, "svc-a");
}

fn object_ref(api_version: &str, kind: &str, namespace: &str, name: &str) -> RenderedObjectRef {
    RenderedObjectRef {
        api_version: api_version.to_owned(),
        kind: kind.to_owned(),
        namespace: namespace.to_owned(),
        name: name.to_owned(),
    }
}

fn service<const N: usize>(name: &str, namespace: &str, ports: [i32; N]) -> LiveService {
    LiveService {
        name: Some(name.to_owned()),
        namespace: Some(namespace.to_owned()),
        uid: Some("current-service".to_owned()),
        deleting: false,
        annotations: StringMap::new(),
        ports: Some(ports.to_vec()),
    }
}

fn api_owner() -> LiveOwner {
    LiveOwner {
        api_version: "v1".to_owned(),
        kind: "Service".to_owned(),
        name: "api".to_owned(),
        uid: "current-service".to_owned(),
        controller: Some(true),
    }
}

fn endpoint_slice<const N: usize>(ready_values: [Option<bool>; N]) -> LiveEndpointSlice {
    LiveEndpointSlice {
        name: None,
        deleting: false,
        owners: vec![api_owner()],
        address_type: String::new(),
        endpoints: ready_values
            .into_iter()
            .map(|ready| LiveEndpoint {
                addresses: vec!["10.0.0.1".to_owned()],
                ready,
                terminating: None,
            })
            .collect(),
        ports: None,
    }
}

fn owned_endpoint_slice(
    name: &str,
    address_type: &str,
    addresses: &[&str],
    port: Option<i32>,
    ready: Option<bool>,
) -> LiveEndpointSlice {
    LiveEndpointSlice {
        name: Some(name.to_owned()),
        deleting: false,
        owners: vec![api_owner()],
        address_type: address_type.to_owned(),
        endpoints: vec![LiveEndpoint {
            addresses: addresses.iter().map(|value| (*value).to_owned()).collect(),
            ready,
            terminating: None,
        }],
        ports: port.map(|port| vec![Some(port)]),
    }
}

fn backend_address(value: &str) -> BackendAddress {
    BackendAddress::parse(value).expect("valid backend address")
}

#[test]
fn ready_backend_address_uses_the_ready_endpoint_address_and_port() {
    let service = service("api", "apps", [80]);
    let slices = vec![owned_endpoint_slice(
        "api-v4",
        "IPv4",
        &["10.244.1.7"],
        Some(8080),
        Some(true),
    )];

    assert_eq!(
        ready_backend_address(&service, &slices),
        Some(backend_address("10.244.1.7:8080"))
    );
}

#[test]
fn ready_backend_address_brackets_ipv6_endpoints() {
    let service = service("api", "apps", [80]);
    let slices = vec![owned_endpoint_slice(
        "api-v6",
        "IPv6",
        &["fd00::7"],
        Some(8080),
        Some(true),
    )];

    assert_eq!(
        ready_backend_address(&service, &slices).map(|address| address.to_text()),
        Some("[fd00::7]:8080".to_owned())
    );
}

#[test]
fn ready_backend_address_needs_a_port_a_ready_endpoint_and_a_numeric_address() {
    let service = service("api", "apps", [80]);
    for slice in [
        owned_endpoint_slice("api-no-port", "IPv4", &["10.244.1.7"], None, Some(true)),
        owned_endpoint_slice(
            "api-unready",
            "IPv4",
            &["10.244.1.7"],
            Some(8080),
            Some(false),
        ),
        owned_endpoint_slice(
            "api-zero-port",
            "IPv4",
            &["10.244.1.7"],
            Some(0),
            Some(true),
        ),
        owned_endpoint_slice(
            "api-fqdn",
            "FQDN",
            &["api.apps.svc.cluster.local"],
            Some(8080),
            Some(true),
        ),
        owned_endpoint_slice("api-empty", "IPv4", &[], Some(8080), Some(true)),
    ] {
        assert_eq!(ready_backend_address(&service, &vec![slice]), None);
    }
}

#[test]
fn ready_backend_address_ignores_slices_owned_by_another_service() {
    let service = service("other", "apps", [80]);
    let slices = vec![owned_endpoint_slice(
        "api-v4",
        "IPv4",
        &["10.244.1.7"],
        Some(8080),
        Some(true),
    )];

    assert_eq!(ready_backend_address(&service, &slices), None);
}

#[test]
fn ready_backend_address_picks_the_same_dual_stack_slice_on_every_read() {
    let service = service("api", "apps", [80]);
    let v4 = owned_endpoint_slice("api-v4", "IPv4", &["10.244.1.7"], Some(8080), Some(true));
    let v6 = owned_endpoint_slice("api-v6", "IPv6", &["fd00::7"], Some(8080), Some(true));

    let forward = ready_backend_address(&service, &vec![v4.clone(), v6.clone()]);
    let reversed = ready_backend_address(&service, &vec![v6, v4]);

    assert_eq!(forward, reversed);
    assert_eq!(forward, Some(backend_address("10.244.1.7:8080")));
}

#[test]
fn service_backend_endpoint_carries_the_observed_pod_address() {
    let service = service("api", "apps", [80]);
    let config = KubeMaterializerClientConfig::default();

    let backend = backend_endpoint_for_service(
        &service,
        &config,
        Some(backend_address("10.244.1.7:8080")),
    )
    .expect("service backend endpoint");

    assert_eq!(backend.uri(), "http://api.apps.svc.cluster.local:80");
    assert_eq!(backend.address(), Some(backend_address("10.244.1.7:8080")));
}

#[test]
fn readiness_inspection_reports_the_ready_pod_address() {
    let service = service("api", "apps", [80]);
    let config = KubeMaterializerClientConfig::default();
    let slices = vec![owned_endpoint_slice(
        "api-v4",
        "IPv4",
        &["10.244.1.7"],
        Some(8080),
        Some(true),
    )];

    match readiness_inspection_for_service(&service, &slices, &config)
    {
        ProjectionReadinessInspection::Ready(backend) => {
            assert_eq!(backend.address(), Some(backend_address("10.244.1.7:8080")));
        }
        other => panic!("expected a ready inspection, got {other:?}"),
    }
}
