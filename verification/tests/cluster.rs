//! What is asked of a cluster next, and what its answers come to.

use sleepypods_control_plane::cluster_walk::{
    applied, apply_plan, claim_wait, inspection_of, readiness_wait, service_read, slices_read,
    ApplyPlan, ClusterAnswer,
    DeleteWalk, DescendantWalk, LiveRead, RetentionWalk, ServiceRead, VolumeRead, WaitStep,
};
use sleepypods_control_plane::duration::Duration;
use sleepypods_control_plane::kube_materializer::{
    descendant_namespaces, descendant_selector, slice_selector, KubeFailure, KubeFailureKind, KubeMaterializerClientConfig,
    LiveEndpoint, LiveEndpointSlice, LiveOwner, LiveService,
};
use sleepypods_control_plane::json::Json;
use sleepypods_control_plane::manifest::objects::{
    KubernetesObject, ObjectMeta, Service, ServiceSpec,
};
use sleepypods_control_plane::materialization::RenderedObjectRef;
use sleepypods_control_plane::materializer::KubernetesClientError;
use sleepypods_control_plane::projection::{
    LiveObjectIdentity, ProjectionObjectInspection, ProjectionReadinessInspection,
};
use sleepypods_control_plane::string_map::StringMap;

fn object(kind: &str, namespace: &str, name: &str) -> RenderedObjectRef {
    RenderedObjectRef {
        api_version: "v1".to_owned(),
        kind: kind.to_owned(),
        namespace: namespace.to_owned(),
        name: name.to_owned(),
    }
}

fn refused(code: u16, reason: &str) -> KubeFailure {
    KubeFailure {
        kind: KubeFailureKind::Api {
            code,
            reason: reason.to_owned(),
        },
        message: format!("cluster said {reason}"),
    }
}

fn given(text: &str) -> ClusterAnswer<Option<String>> {
    ClusterAnswer::Given(Some(text.to_owned()))
}

fn recorded() -> Vec<RenderedObjectRef> {
    vec![
        object("PersistentVolume", "", "data-a"),
        object("PersistentVolumeClaim", "apps", "claim-a"),
        object("Service", "apps", "svc-a"),
        object("PersistentVolumeClaim", "apps", "claim-b"),
    ]
}

#[test]
fn claims_are_cleared_one_after_another() {
    let objects = recorded();
    let walk = RetentionWalk::begin(&objects);
    assert_eq!(walk, RetentionWalk::Claim { at: 1 });
    let walk = walk.step(&objects, given("data-a"));
    assert_eq!(
        walk,
        RetentionWalk::Volume {
            at: 1,
            name: "data-a".to_owned()
        }
    );
    let walk = walk.step(&objects, given("Retain"));
    assert_eq!(walk, RetentionWalk::Claim { at: 3 });
    let walk = walk.step(&objects, ClusterAnswer::Failed(refused(404, "NotFound")));
    assert_eq!(walk, RetentionWalk::Ended(Ok(())));
    assert_eq!(
        RetentionWalk::begin(&vec![]),
        RetentionWalk::Ended(Ok(()))
    );
}

#[test]
fn an_unproven_claim_stops_every_removal() {
    let objects = recorded();
    let at_claim = |answer: ClusterAnswer<Option<String>>| {
        RetentionWalk::begin(&objects).step(&objects, answer)
    };
    let at_volume = |answer: ClusterAnswer<Option<String>>| {
        at_claim(given("data-a")).step(&objects, answer)
    };
    let unproven = KubernetesClientError::new(
        "PVC has no proven static volume binding; automatic cleanup refused",
    );
    let retain =
        KubernetesClientError::new("PVC backing PV requires Retain before any automatic cleanup");
    let late = KubernetesClientError::transient("retained static binding inspection timed out");

    for (walk, error) in [
        (at_claim(ClusterAnswer::Given(None)), unproven.clone()),
        (at_claim(given("")), unproven),
        (
            at_claim(given("data-z")),
            KubernetesClientError::new(
                "PVC binds a PV outside recorded inventory; automatic cleanup refused",
            ),
        ),
        (at_claim(ClusterAnswer::TimedOut), late.clone()),
        (at_volume(ClusterAnswer::TimedOut), late),
        (at_volume(given("Delete")), retain.clone()),
        (at_volume(ClusterAnswer::Given(None)), retain),
        (
            at_volume(ClusterAnswer::Failed(refused(404, "NotFound"))),
            KubernetesClientError::new("cluster said NotFound"),
        ),
        (
            at_claim(ClusterAnswer::Failed(refused(503, "Busy"))),
            KubernetesClientError::transient("cluster said Busy"),
        ),
    ] {
        assert_eq!(walk, RetentionWalk::Ended(Err(error)));
    }
}

#[test]
fn an_instance_is_gone_once_no_namespace_holds_anything_of_it() {
    let mut objects = recorded();
    objects.push(object("Service", "other", "svc-b"));
    let namespaces = descendant_namespaces(&objects);
    let walk = DescendantWalk::begin(&namespaces);
    assert_eq!(walk, DescendantWalk::Pods { at: 0 });
    let walk = walk.step(&namespaces, ClusterAnswer::Given(0));
    assert_eq!(walk, DescendantWalk::ReplicaSets { at: 0 });
    let walk = walk.step(&namespaces, ClusterAnswer::Given(0));
    assert_eq!(walk, DescendantWalk::Pods { at: 1 });
    let walk = walk.step(&namespaces, ClusterAnswer::Given(0));
    let walk = walk.step(&namespaces, ClusterAnswer::Given(0));
    assert_eq!(walk, DescendantWalk::Ended(Ok(())));

    let begun = || DescendantWalk::begin(&namespaces);
    for (walk, error) in [
        (
            begun().step(&namespaces, ClusterAnswer::Given(1)),
            KubernetesClientError::transient(
                "projection Pods still exist, including terminating members",
            ),
        ),
        (
            begun()
                .step(&namespaces, ClusterAnswer::Given(0))
                .step(&namespaces, ClusterAnswer::Given(1)),
            KubernetesClientError::transient("projection ReplicaSets still exist"),
        ),
        (
            begun().step(&namespaces, ClusterAnswer::TimedOut),
            KubernetesClientError::transient("descendant absence inspection timed out"),
        ),
        (
            begun().step(&namespaces, ClusterAnswer::Failed(refused(403, "Forbidden"))),
            KubernetesClientError::new("cluster said Forbidden"),
        ),
    ] {
        assert_eq!(walk, DescendantWalk::Ended(Err(error)));
    }
}

fn identity() -> LiveObjectIdentity {
    LiveObjectIdentity {
        uid: "uid-a".to_owned(),
        resource_version: "12".to_owned(),
    }
}

#[test]
fn a_volume_is_read_once_more_before_it_is_removed() {
    let begin = |object: RenderedObjectRef| DeleteWalk::begin(&object, &identity());
    assert_eq!(
        begin(object("PersistentVolume", "", "data-a")),
        DeleteWalk::InspectVolume
    );
    assert_eq!(begin(object("Service", "apps", "svc-a")), DeleteWalk::Send);
    assert!(matches!(
        begin(object("ConfigMap", "apps", "a")),
        DeleteWalk::Ended(Err(_))
    ));
    assert!(matches!(
        DeleteWalk::begin(
            &object("Service", "apps", "svc-a"),
            &LiveObjectIdentity {
                uid: String::new(),
                resource_version: "12".to_owned()
            }
        ),
        DeleteWalk::Ended(Err(_))
    ));

    let read = |uid: &str, policy: Option<&str>| {
        DeleteWalk::inspected(
            &identity(),
            ClusterAnswer::Given(VolumeRead {
                uid: Some(uid.to_owned()),
                resource_version: Some("12".to_owned()),
                reclaim_policy: policy.map(str::to_owned),
            }),
        )
    };
    assert_eq!(read("uid-a", Some("Retain")), DeleteWalk::Send);
    assert_eq!(
        read("uid-b", Some("Retain")),
        DeleteWalk::Ended(Err(KubernetesClientError::transient(
            "PV changed since ownership/retention inspection"
        )))
    );
    assert!(matches!(
        read("uid-a", Some("Delete")),
        DeleteWalk::Ended(Err(_))
    ));
    assert_eq!(
        DeleteWalk::inspected(
            &identity(),
            ClusterAnswer::Failed(refused(404, "NotFound"))
        ),
        DeleteWalk::Ended(Ok(()))
    );
    assert_eq!(
        DeleteWalk::inspected(&identity(), ClusterAnswer::TimedOut),
        DeleteWalk::Ended(Err(KubernetesClientError::transient(
            "PV retention inspection timed out"
        )))
    );
}

#[test]
fn silence_leaves_the_outcome_of_a_change_open() {
    assert_eq!(DeleteWalk::sent(ClusterAnswer::Given(())), Ok(()));
    assert_eq!(
        DeleteWalk::sent(ClusterAnswer::Failed(refused(404, "NotFound"))),
        Ok(())
    );
    assert!(DeleteWalk::sent(ClusterAnswer::TimedOut)
        .unwrap_err()
        .outcome_uncertain());
    assert_eq!(applied(ClusterAnswer::Given(())), Ok(()));
    assert!(applied(ClusterAnswer::TimedOut)
        .unwrap_err()
        .outcome_uncertain());
    assert!(applied(ClusterAnswer::Failed(refused(409, "Conflict")))
        .unwrap_err()
        .is_retryable());
}

#[test]
fn a_claim_is_waited_for_until_the_deadline() {
    let look = |answer: ClusterAnswer<Option<String>>, remaining: u64| {
        claim_wait(
            "apps",
            "claim-a",
            answer,
            Duration::from_secs(remaining),
            Duration::from_secs(2),
        )
    };
    assert_eq!(look(given("Bound"), 0), WaitStep::Done(Ok(())));
    assert_eq!(
        look(given("Pending"), 5),
        WaitStep::Sleep(Duration::from_secs(2))
    );
    assert_eq!(
        look(ClusterAnswer::Given(None), 1),
        WaitStep::Sleep(Duration::from_secs(1))
    );
    assert_eq!(
        look(given("Pending"), 0),
        WaitStep::Done(Err(KubernetesClientError::new(
            "timed out waiting for PersistentVolumeClaim apps/claim-a to become Bound"
        )))
    );
    assert_eq!(
        look(ClusterAnswer::TimedOut, 5),
        WaitStep::Done(Err(KubernetesClientError::transient(
            "Kubernetes read/wait timed out"
        )))
    );
}

#[test]
fn an_object_is_kept_with_its_identity() {
    let read = |uid: Option<&str>, version: Option<&str>| {
        inspection_of(ClusterAnswer::Given(LiveRead {
            uid: uid.map(str::to_owned),
            resource_version: version.map(str::to_owned),
            labels: StringMap::new(),
            annotations: StringMap::new(),
            deleting: true,
            finalizers: vec!["example.com/cleanup".to_owned()],
            reclaim_policy: None,
        }))
    };
    match read(Some("uid-a"), Some("12")) {
        Ok(ProjectionObjectInspection::Present(live)) => {
            assert_eq!(live.identity, identity());
            assert!(live.deleting);
            assert_eq!(live.finalizers, vec!["example.com/cleanup"]);
        }
        other => panic!("expected an object, got {other:?}"),
    }
    assert_eq!(
        read(None, None).unwrap_err().message(),
        "live Kubernetes object has no UID"
    );
    assert_eq!(
        read(Some("uid-a"), None).unwrap_err().message(),
        "live Kubernetes object has no resourceVersion"
    );
    assert_eq!(
        inspection_of(ClusterAnswer::Failed(refused(404, "NotFound"))),
        Ok(ProjectionObjectInspection::Missing)
    );
}

fn service(ports: Option<Vec<i32>>) -> LiveService {
    LiveService {
        name: Some("svc-a".to_owned()),
        namespace: Some("apps".to_owned()),
        uid: Some("uid-svc".to_owned()),
        deleting: false,
        annotations: StringMap::new(),
        ports,
    }
}

fn slice(ready: bool) -> LiveEndpointSlice {
    LiveEndpointSlice {
        name: Some("slice-a".to_owned()),
        deleting: false,
        owners: vec![LiveOwner {
            api_version: "v1".to_owned(),
            kind: "Service".to_owned(),
            name: "svc-a".to_owned(),
            uid: "uid-svc".to_owned(),
            controller: Some(true),
        }],
        address_type: "IPv4".to_owned(),
        endpoints: vec![LiveEndpoint {
            addresses: vec!["10.0.0.7".to_owned()],
            ready: Some(ready),
            terminating: None,
        }],
        ports: Some(vec![Some(8080)]),
    }
}

#[test]
fn a_service_is_waited_for_until_it_leads_somewhere() {
    let config = KubeMaterializerClientConfig::default();
    let look = |answer: ClusterAnswer<(LiveService, Vec<LiveEndpointSlice>)>, remaining: u64| {
        readiness_wait(
            &object("Service", "apps", "svc-a"),
            answer,
            &config,
            Duration::from_secs(remaining),
        )
    };
    let seen = |ready: bool| ClusterAnswer::Given((service(Some(vec![80])), vec![slice(ready)]));

    match look(seen(true), 0) {
        WaitStep::Done(Ok(backend)) => {
            assert_eq!(backend.uri(), "http://svc-a.apps.svc.cluster.local:80");
            assert_eq!(backend.address().unwrap().to_text(), "10.0.0.7:8080");
        }
        other => panic!("expected a backend, got {other:?}"),
    }
    assert_eq!(
        look(seen(false), 5),
        WaitStep::Sleep(Duration::from_secs(2))
    );
    assert_eq!(
        look(seen(false), 0),
        WaitStep::Done(Err(KubernetesClientError::new(
            "timed out waiting for ready EndpointSlice endpoints for Service apps/svc-a"
        )))
    );
    assert!(matches!(
        look(
            ClusterAnswer::Given((service(None), vec![slice(true)])),
            5
        ),
        WaitStep::Done(Err(_))
    ));
}

#[test]
fn a_service_is_inspected_without_waiting() {
    let config = KubeMaterializerClientConfig::default();
    assert_eq!(
        service_read(ClusterAnswer::Failed(refused(404, "NotFound"))),
        ServiceRead::Ended(Ok(ProjectionReadinessInspection::Unready {
            reason: "service_missing".to_owned()
        }))
    );
    assert_eq!(
        service_read(ClusterAnswer::Given(service(None))),
        ServiceRead::Found(service(None))
    );
    let inspect = |service: LiveService, slices: Vec<LiveEndpointSlice>| {
        slices_read(&service, ClusterAnswer::Given(slices), &config)
    };
    let unready = |reason: &str| {
        Ok(ProjectionReadinessInspection::Unready {
            reason: reason.to_owned(),
        })
    };
    assert!(matches!(
        inspect(service(Some(vec![80])), vec![slice(true)]),
        Ok(ProjectionReadinessInspection::Ready(_))
    ));
    assert_eq!(
        inspect(service(Some(vec![80])), vec![slice(false)]),
        unready("no_ready_endpoints")
    );
    assert_eq!(
        inspect(service(None), vec![slice(true)]),
        unready("backend_endpoint_invalid")
    );
}

fn rendered_service() -> KubernetesObject {
    KubernetesObject::Service(Service {
        metadata: ObjectMeta {
            name: "svc-a".to_owned(),
            namespace: Some("apps".to_owned()),
            labels: StringMap::new(),
            annotations: StringMap::new(),
        },
        spec: ServiceSpec {
            selector: StringMap::new(),
            ports: Vec::new(),
        },
    })
}

#[test]
fn only_the_inspected_version_is_patched() {
    let service = rendered_service();
    match apply_plan(&service, None) {
        Ok(ApplyPlan::Create(body)) => assert_eq!(body, service.to_kubernetes_json()),
        other => panic!("{other:?}"),
    }
    let identity = LiveObjectIdentity {
        uid: "uid-a".to_owned(),
        resource_version: "17".to_owned(),
    };
    match apply_plan(&service, Some(&identity)) {
        Ok(ApplyPlan::Patch(body)) => {
            let metadata = body.get("metadata").expect("metadata");
            assert_eq!(metadata.get("uid"), Some(&Json::Text("uid-a".to_owned())));
            assert_eq!(
                metadata.get("resourceVersion"),
                Some(&Json::Text("17".to_owned()))
            );
            assert_eq!(metadata.get("name"), Some(&Json::Text("svc-a".to_owned())));
        }
        other => panic!("{other:?}"),
    }
    let nameless = LiveObjectIdentity {
        uid: String::new(),
        resource_version: "17".to_owned(),
    };
    assert!(apply_plan(&service, Some(&nameless)).is_err());
}

#[test]
fn selectors_name_the_instance_and_the_service() {
    assert_eq!(
        descendant_selector("instance-a"),
        "sleepypods.io/instance-id=instance-a"
    );
    assert_eq!(
        slice_selector("svc-a"),
        "kubernetes.io/service-name=svc-a"
    );
}
