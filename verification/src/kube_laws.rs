//! What is seen of a cluster, and what its answers mean.

use crate::backend::{BackendAddress, BackendEndpointView};
use crate::json::{self, JsonView};
use crate::kube_materializer::{
    self as kube, KubeFailure, KubeFailureKind, KubeMaterializerClientConfig, LiveEndpoint,
    LiveEndpointSlice, LiveOwner, LiveService,
};
use crate::manifest::objects::{self, KubernetesObjectView};
use crate::manifest;
use crate::materialization::RenderedObjectRef;
use crate::materializer::{self, ClientErrorKind, ClientErrorView};
use crate::net;
use crate::projection::{LiveObjectIdentity, ProjectionReadinessInspection};
use crate::string_map;
use crate::text;
use vstd::prelude::*;

verus! {

// ---------------------------------------------------------------------------
// Endpoints
// ---------------------------------------------------------------------------
/// An endpoint that is told to be there for traffic: it has an address, it is not
/// on its way out, and it is not said to be unready.
pub open spec fn usable(endpoint: LiveEndpoint) -> bool {
    &&& endpoint.addresses@.len() >= 1
    &&& !(endpoint.terminating matches Some(ending) && ending)
    &&& !(endpoint.ready matches Some(ready) && !ready)
}

proof fn lemma_first_ready_is_first(endpoints: Seq<LiveEndpoint>, from: int)
    requires
        0 <= from <= endpoints.len(),
    ensures
        match kube::first_ready(endpoints, from) {
            Some(at) => from <= at < endpoints.len() && usable(endpoints[at]) && forall|i: int|
                from <= i < at ==> !usable(#[trigger] endpoints[i]),
            None => forall|i: int|
                from <= i < endpoints.len() ==> !usable(#[trigger] endpoints[i]),
        },
    decreases endpoints.len() - from,
{
    if from < endpoints.len() && !usable(endpoints[from]) {
        lemma_first_ready_is_first(endpoints, from + 1);
    }
}

/// The endpoint that is chosen in a slice is the first usable one, wherever it
/// stands, and there is none exactly when no endpoint is usable.
pub proof fn law_the_first_usable_endpoint_is_chosen(endpoints: Seq<LiveEndpoint>)
    ensures
        kube::first_ready(endpoints, 0) is Some <==> exists|i: int|
            0 <= i < endpoints.len() && usable(#[trigger] endpoints[i]),
        kube::first_ready(endpoints, 0) matches Some(at) ==> 0 <= at < endpoints.len() && usable(
            endpoints[at],
        ) && forall|i: int| 0 <= i < at ==> !usable(#[trigger] endpoints[i]),
{
    lemma_first_ready_is_first(endpoints, 0);
}

/// An owner is the controller of a slice, and it is this Service.
pub open spec fn controls(owner: LiveOwner, name: Seq<char>, uid: Seq<char>) -> bool {
    &&& owner.controller == Some(true)
    &&& (owner.api_version@, owner.kind@) == ("v1"@, "Service"@)
    &&& (owner.name@, owner.uid@) == (name, uid)
}

/// A slice belongs to a Service exactly when neither is being deleted, the Service
/// has an identity, and it is the controller of the slice.
pub proof fn law_a_slice_belongs_to_its_controller(service: LiveService, slice: LiveEndpointSlice)
    ensures
        kube::slice_belongs(service, slice) <==> {
            &&& !service.deleting && !slice.deleting
            &&& service.uid is Some && service.uid->Some_0@.len() > 0
            &&& service.name is Some
            &&& exists|i: int|
                0 <= i < slice.owners@.len() && controls(
                    #[trigger] slice.owners@[i],
                    service.name->Some_0@,
                    service.uid->Some_0@,
                )
        },
{
    if let (Some(name), Some(uid)) = (service.name, service.uid) {
        assert forall|i: int| 0 <= i < slice.owners@.len() implies kube::owner_is(
            #[trigger] slice.owners@[i],
            manifest::optional_view(service.name),
            uid@,
        ) == controls(slice.owners@[i], name@, uid@) by {}
    }
}

/// A Service has a ready endpoint exactly when some slice of its own has a usable
/// one at any place.
pub proof fn law_a_service_is_ready_by_any_endpoint(
    service: LiveService,
    slices: Seq<LiveEndpointSlice>,
)
    ensures
        kube::any_ready(service, slices) <==> exists|i: int, j: int|
            #![trigger slices[i].endpoints@[j]]
            0 <= i < slices.len() && kube::slice_belongs(service, slices[i]) && 0 <= j
                < slices[i].endpoints@.len() && usable(slices[i].endpoints@[j]),
{
    assert forall|i: int| 0 <= i < slices.len() implies (kube::ready_slice(
        service,
        #[trigger] slices[i],
    ) <==> kube::slice_belongs(service, slices[i]) && exists|j: int|
        0 <= j < slices[i].endpoints@.len() && usable(#[trigger] slices[i].endpoints@[j])) by {
        law_the_first_usable_endpoint_is_chosen(slices[i].endpoints@);
    }
    if kube::any_ready(service, slices) {
        let i = choose|i: int|
            0 <= i < slices.len() && kube::ready_slice(service, #[trigger] slices[i]);
        let j = choose|j: int|
            0 <= j < slices[i].endpoints@.len() && usable(#[trigger] slices[i].endpoints@[j]);
        assert(usable(slices[i].endpoints@[j]));
    }
}

proof fn lemma_first_port_is_first(ports: Seq<Option<i32>>, from: int)
    requires
        0 <= from <= ports.len(),
    ensures
        match kube::first_port(ports, from) {
            Some(port) => exists|at: int|
                #![trigger ports[at]]
                from <= at < ports.len() && ports[at] == Some(port as i32) && port > 0 && forall|
                    i: int,
                |
                    from <= i < at ==> !(#[trigger] ports[i] matches Some(number) && 1 <= number
                        <= 65535),
            None => forall|i: int|
                from <= i < ports.len() ==> !(#[trigger] ports[i] matches Some(number) && 1
                    <= number <= 65535),
        },
    decreases ports.len() - from,
{
    if from < ports.len() {
        if ports[from] matches Some(number) && 1 <= number <= 65535 {
            assert(ports[from] == Some(kube::first_port(ports, from)->Some_0 as i32));
        } else {
            lemma_first_port_is_first(ports, from + 1);
            if let Some(port) = kube::first_port(ports, from + 1) {
                let at = choose|at: int|
                    #![trigger ports[at]]
                    from + 1 <= at < ports.len() && ports[at] == Some(port as i32) && port > 0
                        && forall|i: int|
                        from + 1 <= i < at ==> !(#[trigger] ports[i] matches Some(number) && 1
                            <= number <= 65535);
                assert(ports[at] == Some(port as i32));
            }
        }
    }
}

/// The address that a slice offers, if it belongs to the Service and offers one, is
/// the first address of its first usable endpoint, at its first port that is a
/// port.
pub proof fn law_a_slice_offers_its_first_endpoint(service: LiveService, slice: LiveEndpointSlice)
    ensures
        kube::candidate(service, slice) matches Some(address) ==> {
            &&& kube::slice_belongs(service, slice)
            &&& slice.ports is Some
            &&& exists|at: int|
                #![trigger slice.endpoints@[at]]
                0 <= at < slice.endpoints@.len() && usable(slice.endpoints@[at])
                    && net::parsed_ip(slice.endpoints@[at].addresses@[0]@) == Some(address.ip)
                    && forall|i: int| 0 <= i < at ==> !usable(#[trigger] slice.endpoints@[i])
            &&& exists|at: int|
                #![trigger slice.ports->Some_0@[at]]
                0 <= at < slice.ports->Some_0@.len() && slice.ports->Some_0@[at] == Some(
                    address.port as i32,
                ) && address.port > 0 && forall|i: int|
                    0 <= i < at ==> !(#[trigger] slice.ports->Some_0@[i] matches Some(number) && 1
                        <= number <= 65535)
        },
{
    lemma_first_ready_is_first(slice.endpoints@, 0);
    if let Some(ports) = slice.ports {
        lemma_first_port_is_first(ports@, 0);
    }
    if let Some(address) = kube::candidate(service, slice) {
        let at = kube::first_ready(slice.endpoints@, 0)->Some_0;
        assert(usable(slice.endpoints@[at]));
    }
}

/// A slice of the Service with a usable endpoint and a port offers an address
/// wherever that endpoint's first address can be read.
pub proof fn law_a_readable_address_is_offered(
    service: LiveService,
    slice: LiveEndpointSlice,
    endpoint: int,
    port: int,
)
    requires
        kube::slice_belongs(service, slice),
        0 <= endpoint < slice.endpoints@.len(),
        usable(slice.endpoints@[endpoint]),
        forall|i: int| 0 <= i < endpoint ==> !usable(#[trigger] slice.endpoints@[i]),
        net::parsed_ip(slice.endpoints@[endpoint].addresses@[0]@) is Some,
        slice.ports is Some,
        0 <= port < slice.ports->Some_0@.len(),
        slice.ports->Some_0@[port] matches Some(number) && 1 <= number <= 65535,
    ensures
        kube::candidate(service, slice) is Some,
{
    lemma_first_ready_is_first(slice.endpoints@, 0);
    lemma_first_port_is_first(slice.ports->Some_0@, 0);
    let at = kube::first_ready(slice.endpoints@, 0)->Some_0;
    if at < endpoint {
        assert(!usable(slice.endpoints@[at]));
    }
    if endpoint < at {
        assert(!usable(slice.endpoints@[endpoint]));
    }
}

proof fn lemma_lowest(service: LiveService, slices: Seq<LiveEndpointSlice>, count: nat)
    requires
        count <= slices.len(),
    ensures
        match kube::chosen_slice(service, slices, count) {
            Some(at) => 0 <= at < count && kube::candidate(service, slices[at]) is Some && forall|
                i: int,
            |
                0 <= i < count && kube::candidate(service, #[trigger] slices[i]) is Some
                    ==> not_after(slices[at], slices[i]),
            None => forall|i: int|
                0 <= i < count ==> kube::candidate(service, #[trigger] slices[i]) is None,
        },
    decreases count,
{
    if count > 0 {
        lemma_lowest(service, slices, (count - 1) as nat);
        let last = slices[count - 1];
        text::lemma_text_lt_irreflexive(last.address_type@);
        text::lemma_text_lt_irreflexive(name_in(last));
        if let Some(at) = kube::chosen_slice(service, slices, (count - 1) as nat) {
            let best = slices[at];
            text::lemma_text_lt_total(best.address_type@, last.address_type@);
            text::lemma_text_lt_total(name_in(best), name_in(last));
            if kube::candidate(service, last) is Some {
                assert forall|i: int|
                    0 <= i < count && kube::candidate(service, #[trigger] slices[i])
                        is Some && kube::slice_before(last, best) implies not_after(
                    last,
                    slices[i],
                ) by {
                    if i < count - 1 {
                        assert(not_after(best, slices[i]));
                        let other = slices[i];
                        if text::text_lt(last.address_type@, best.address_type@)
                            && text::text_lt(best.address_type@, other.address_type@) {
                            text::lemma_text_lt_transitive(
                                last.address_type@,
                                best.address_type@,
                                other.address_type@,
                            );
                        }
                        if text::text_lt(name_in(last), name_in(best)) && text::text_lt(
                            name_in(best),
                            name_in(other),
                        ) {
                            text::lemma_text_lt_transitive(
                                name_in(last),
                                name_in(best),
                                name_in(other),
                            );
                        }
                    }
                }
            }
        }
    }
}

/// The name of a slice, which may be without one.
pub open spec fn name_in(slice: LiveEndpointSlice) -> Seq<char> {
    if slice.name is Some {
        slice.name->Some_0@
    } else {
        Seq::empty()
    }
}

/// A slice stands before another by its address type, then by its name, or beside
/// it.
pub open spec fn not_after(left: LiveEndpointSlice, right: LiveEndpointSlice) -> bool {
    ||| text::text_lt(left.address_type@, right.address_type@)
    ||| left.address_type@ == right.address_type@ && (name_in(left) == name_in(right)
        || text::text_lt(name_in(left), name_in(right)))
}

/// Of the slices that offer an address, the one with the lowest address type, and
/// among those the lowest name, tells where a Service is reached. There is no
/// address only where no slice offers one.
pub proof fn law_the_lowest_slice_is_reached(service: LiveService, slices: Seq<LiveEndpointSlice>)
    ensures
        match kube::ready_address(service, slices) {
            Some(address) => exists|at: int|
                #![trigger slices[at]]
                0 <= at < slices.len() && kube::candidate(service, slices[at]) == Some(address)
                    && forall|i: int|
                    0 <= i < slices.len() && kube::candidate(service, #[trigger] slices[i]) is Some
                        ==> not_after(slices[at], slices[i]),
            None => forall|i: int|
                0 <= i < slices.len() ==> kube::candidate(service, #[trigger] slices[i]) is None,
        },
{
    lemma_lowest(service, slices, slices.len());
    if let Some(at) = kube::chosen_slice(service, slices, slices.len()) {
        assert(kube::candidate(service, slices[at]) is Some);
    }
}

// ---------------------------------------------------------------------------
// The backend
// ---------------------------------------------------------------------------
/// The protocol that a Service names itself counts, and the configured one where it
/// names none.
pub open spec fn scheme_to_use(service: LiveService, config: KubeMaterializerClientConfig) -> Seq<
    char,
> {
    match string_map::entry_of(service.annotations@, "sleepypods.io/backend-scheme"@) {
        Some(scheme) => scheme,
        None => config.backend_scheme@,
    }
}

/// A backend is known exactly where its Service has a name, a namespace, a first
/// port above zero and a protocol that can stand in a URI; it is then reached by the
/// name of the Service inside the cluster, at that port.
pub proof fn law_a_backend_is_reached_by_its_service(
    service: LiveService,
    config: KubeMaterializerClientConfig,
    address: Option<BackendAddress>,
)
    ensures
        kube::backend_outcome(service, config, address) is Ok <==> {
            &&& kube::uri_scheme(scheme_to_use(service, config))
            &&& service.name is Some
            &&& service.namespace is Some
            &&& service.ports is Some && service.ports->Some_0@.len() > 0
            &&& service.ports->Some_0@[0] >= 1
        },
        kube::backend_outcome(service, config, address) matches Ok(backend) ==> {
            &&& backend.address == address
            &&& backend.uri == scheme_to_use(service, config) + "://"@ + service.name->Some_0@
                + "."@ + service.namespace->Some_0@ + ".svc.cluster.local:"@ + text::decimal(
                service.ports->Some_0@[0] as nat,
            )
        },
        kube::backend_outcome(service, config, address) matches Err(error) ==> error.kind
            == ClientErrorKind::Permanent,
{
}

/// What an inspection of a Service shows follows from its backend and its
/// endpoints alone: it is ready exactly when its backend is known and some slice of
/// its own has a usable endpoint, and then its address is that of the slices.
pub proof fn law_an_inspection_shows_the_service(
    service: LiveService,
    slices: Seq<LiveEndpointSlice>,
    config: KubeMaterializerClientConfig,
    inspection: ProjectionReadinessInspection,
)
    requires
        kube::inspected(service, slices, config, inspection),
    ensures
        inspection is Ready <==> kube::backend_outcome(service, config, None) is Ok && exists|
            i: int,
            j: int,
        |
            #![trigger slices[i].endpoints@[j]]
            0 <= i < slices.len() && kube::slice_belongs(service, slices[i]) && 0 <= j
                < slices[i].endpoints@.len() && usable(slices[i].endpoints@[j]),
        inspection matches ProjectionReadinessInspection::Ready(backend) ==> (
        match backend@.address {
            Some(address) => kube::ready_address(service, slices) == Some(address@),
            None => kube::ready_address(service, slices) is None,
        }) && kube::backend_outcome(service, config, backend@.address) == Ok::<
            BackendEndpointView,
            ClientErrorView,
        >(backend@),
        inspection matches ProjectionReadinessInspection::Unready { reason } ==> reason@ == (
        if kube::backend_outcome(service, config, None) is Ok {
            "no_ready_endpoints"@
        } else {
            "backend_endpoint_invalid"@
        }),
{
    law_a_service_is_ready_by_any_endpoint(service, slices);
}

// ---------------------------------------------------------------------------
// Answers
// ---------------------------------------------------------------------------
/// A failed read may be tried again exactly where the cluster was busy, in conflict
/// or broken, or the connection was lost. It is never uncertain: a read changes
/// nothing.
pub proof fn law_a_failed_read_passes_or_stays(error: KubeFailure)
    ensures
        kube::read_failure(error).message == error.message@,
        kube::read_failure(error).kind != ClientErrorKind::Uncertain,
        kube::read_failure(error).kind == ClientErrorKind::Transient <==> match error.kind {
            KubeFailureKind::Api { code, reason } => reason@ == "Conflict"@ || code == 429 || code
                / 100 == 5,
            KubeFailureKind::Connection => true,
            KubeFailureKind::Request => false,
            KubeFailureKind::Other => false,
        },
{
}

/// A failed change is a refusal where the cluster refused it, and may then be tried
/// again exactly where the cluster was busy or in conflict; a request that was never
/// made is final; anything else leaves open whether the change was made.
pub proof fn law_a_failed_change_is_told_apart(error: KubeFailure)
    ensures
        kube::change_failure(error).message == error.message@,
        kube::change_failure(error).kind == match error.kind {
            KubeFailureKind::Api { code, reason } => if code >= 500 {
                ClientErrorKind::Uncertain
            } else if reason@ == "Conflict"@ || code == 429 {
                ClientErrorKind::Transient
            } else {
                ClientErrorKind::Permanent
            },
            KubeFailureKind::Request => ClientErrorKind::Permanent,
            KubeFailureKind::Connection => ClientErrorKind::Uncertain,
            KubeFailureKind::Other => ClientErrorKind::Uncertain,
        },
{
}

/// A delete has succeeded where the cluster says that there is nothing to delete,
/// and only there is a failed delete a success.
pub proof fn law_deleting_what_is_gone_succeeds(error: KubeFailure)
    ensures
        kube::delete_failure(error) is Ok <==> error.kind is Api && error.kind->Api_reason@
            == "NotFound"@,
        kube::delete_failure(error) matches Err(failure) ==> failure == kube::change_failure(
            error,
        ),
{
}

// ---------------------------------------------------------------------------
// Objects
// ---------------------------------------------------------------------------
/// The kinds of objects that are applied, with the group that each is in.
pub open spec fn applied_kind(api_version: Seq<char>, kind: Seq<char>) -> bool {
    ||| api_version == "apps/v1"@ && (kind == "Deployment"@ || kind == "StatefulSet"@)
    ||| api_version == "v1"@ && (kind == "Service"@ || kind == "Secret"@ || kind
        == "PersistentVolume"@ || kind == "PersistentVolumeClaim"@)
}

proof fn lemma_kind_letters()
    ensures
        text::ascii_small("Deployment"@) + "s"@ == "deployments"@,
        text::ascii_small("StatefulSet"@) + "s"@ == "statefulsets"@,
        text::ascii_small("Service"@) + "s"@ == "services"@,
        text::ascii_small("Secret"@) + "s"@ == "secrets"@,
        text::ascii_small("PersistentVolume"@) + "s"@ == "persistentvolumes"@,
        text::ascii_small("PersistentVolumeClaim"@) + "s"@ == "persistentvolumeclaims"@,
        "PersistentVolume"@ != "PersistentVolumeClaim"@,
        "PersistentVolume"@ != "Service"@,
        "PersistentVolume"@ != "Secret"@,
        "PersistentVolume"@ != "Deployment"@,
        "PersistentVolume"@ != "StatefulSet"@,
{
    reveal_strlit("Deployment");
    reveal_strlit("StatefulSet");
    reveal_strlit("Service");
    reveal_strlit("Secret");
    reveal_strlit("PersistentVolume");
    reveal_strlit("PersistentVolumeClaim");
    reveal_strlit("deployments");
    reveal_strlit("statefulsets");
    reveal_strlit("services");
    reveal_strlit("secrets");
    reveal_strlit("persistentvolumes");
    reveal_strlit("persistentvolumeclaims");
    reveal_strlit("s");
    assert(text::ascii_small("Deployment"@) + "s"@ =~= "deployments"@);
    assert(text::ascii_small("StatefulSet"@) + "s"@ =~= "statefulsets"@);
    assert(text::ascii_small("Service"@) + "s"@ =~= "services"@);
    assert(text::ascii_small("Secret"@) + "s"@ =~= "secrets"@);
    assert(text::ascii_small("PersistentVolume"@) + "s"@ =~= "persistentvolumes"@);
    assert(text::ascii_small("PersistentVolumeClaim"@) + "s"@ =~= "persistentvolumeclaims"@);
}

/// An object is addressed exactly when its kind is one of those that are applied and
/// it has a namespace unless it is a volume, which has none. It is then addressed by
/// its kind in small letters and an `s`, in the group and version it names.
pub proof fn law_an_object_is_addressed_by_its_kind(object: RenderedObjectRef)
    ensures
        kube::resource_outcome(object) is Ok <==> applied_kind(object.api_version@, object.kind@)
            && (object.namespace@.len() == 0 <==> object.kind@ == "PersistentVolume"@),
        kube::resource_outcome(object) matches Ok(resource) ==> {
            &&& resource.kind == object.kind@
            &&& resource.api_version == object.api_version@
            &&& resource.plural == text::ascii_small(object.kind@) + "s"@
            &&& if resource.group.len() == 0 {
                resource.version == object.api_version@
            } else {
                resource.group + "/"@ + resource.version == object.api_version@
            }
            &&& forall|i: int|
                0 <= i < resource.version.len() ==> #[trigger] resource.version[i] != '/'
        },
        kube::resource_outcome(object) matches Err(error) ==> error.kind
            == ClientErrorKind::Permanent,
{
    lemma_kind_letters();
    lemma_api_version_parts(object.api_version@);
    reveal_strlit("apps/v1");
    reveal_strlit("v1");
    if applied_kind(object.api_version@, object.kind@) {
        let (group, version) = kube::api_version_parts(object.api_version@);
        if group.len() == 0 && version != object.api_version@ {
            reveal_strlit("/");
            assert((group + "/"@ + version)[0] == '/');
            assert(object.api_version@[0] == '/');
        }
    }
}

proof fn lemma_last_slash(content: Seq<char>, to: int)
    requires
        0 <= to <= content.len(),
    ensures
        match kube::last_slash(content, to) {
            Some(at) => 0 <= at < to && content[at] == '/' && forall|i: int|
                at < i < to ==> #[trigger] content[i] != '/',
            None => forall|i: int| 0 <= i < to ==> #[trigger] content[i] != '/',
        },
    decreases to,
{
    if to > 0 && content[to - 1] != '/' {
        lemma_last_slash(content, to - 1);
    }
}

proof fn lemma_api_version_parts(api_version: Seq<char>)
    ensures
        ({
            let (group, version) = kube::api_version_parts(api_version);
            &&& group.len() == 0 && version == api_version || group + "/"@ + version
                == api_version
            &&& forall|i: int| 0 <= i < version.len() ==> #[trigger] version[i] != '/'
        }),
{
    reveal_strlit("/");
    lemma_last_slash(api_version, api_version.len() as int);
    let (group, version) = kube::api_version_parts(api_version);
    if let Some(at) = kube::last_slash(api_version, api_version.len() as int) {
        assert(group + "/"@ + version =~= api_version);
    }
}

/// A change that is tied to what was seen of an object carries its identity and
/// leaves everything else of the document as it was.
pub proof fn law_a_tied_change_carries_the_identity(
    members: Seq<(Seq<char>, JsonView)>,
    metadata: Seq<(Seq<char>, JsonView)>,
    identity: LiveObjectIdentity,
    key: Seq<char>,
)
    requires
        string_map::entry_of(members, "metadata"@) == Some(JsonView::Object(metadata)),
    ensures
        ({
            let tied = kube::conditioned(JsonView::Object(members), identity);
            let inner = json::member(tied, "metadata"@);
            &&& tied is Object
            &&& inner is Some && inner->Some_0 is Object
            &&& json::member(inner->Some_0, "uid"@) == Some(JsonView::Text(identity.uid@))
            &&& json::member(inner->Some_0, "resourceVersion"@) == Some(
                JsonView::Text(identity.resource_version@),
            )
            &&& key != "metadata"@ ==> json::member(tied, key) == string_map::entry_of(
                members,
                key,
            )
            &&& key != "uid"@ && key != "resourceVersion"@ ==> json::member(inner->Some_0, key)
                == string_map::entry_of(metadata, key)
        }),
{
    reveal_strlit("uid");
    reveal_strlit("resourceVersion");
    let uid = JsonView::Text(identity.uid@);
    let version = JsonView::Text(identity.resource_version@);
    let first = string_map::with_entry(metadata, "uid"@, uid);
    let second = string_map::with_entry(first, "resourceVersion"@, version);
    string_map::lemma_entry_of_with_entry(metadata, "uid"@, uid, "uid"@);
    string_map::lemma_entry_of_with_entry(metadata, "uid"@, uid, key);
    string_map::lemma_entry_of_with_entry(first, "resourceVersion"@, version, "uid"@);
    string_map::lemma_entry_of_with_entry(first, "resourceVersion"@, version, key);
    string_map::lemma_entry_of_with_entry(
        first,
        "resourceVersion"@,
        version,
        "resourceVersion"@,
    );
    string_map::lemma_entry_of_with_entry(
        members,
        "metadata"@,
        JsonView::Object(second),
        "metadata"@,
    );
    string_map::lemma_entry_of_with_entry(members, "metadata"@, JsonView::Object(second), key);
    let tied = kube::conditioned(JsonView::Object(members), identity);
    assert(json::members_of(Some(JsonView::Object(members))) == members);
    assert(json::members_of(string_map::entry_of(members, "metadata"@)) == metadata);
    assert(tied == JsonView::Object(
        string_map::with_entry(members, "metadata"@, JsonView::Object(second)),
    ));
    assert(json::member(tied, "metadata"@) == Some(JsonView::Object(second)));
    assert("uid"@.len() != "resourceVersion"@.len());
    assert(string_map::entry_of(second, "uid"@) == Some(uid));
    assert(string_map::entry_of(second, "resourceVersion"@) == Some(version));
}

/// A volume is removed only as it was last seen and only where its bytes are
/// retained; one that has changed is looked at again.
pub proof fn law_only_a_retained_volume_is_removed(
    uid: Option<Seq<char>>,
    resource_version: Option<Seq<char>>,
    reclaim_policy: Option<Seq<char>>,
    seen: LiveObjectIdentity,
)
    ensures
        kube::volume_cleanup_verdict(uid, resource_version, reclaim_policy, seen) is Ok <==> {
            &&& uid == Some(seen.uid@)
            &&& resource_version == Some(seen.resource_version@)
            &&& reclaim_policy == Some("Retain"@)
        },
        kube::volume_cleanup_verdict(uid, resource_version, reclaim_policy, seen) matches Err(
            error,
        ) ==> (error.kind == ClientErrorKind::Transient <==> uid != Some(seen.uid@)
            || resource_version != Some(seen.resource_version@)) && error.kind
            != ClientErrorKind::Uncertain,
        kube::backing_verdict(reclaim_policy) is Ok <==> reclaim_policy == Some("Retain"@),
{
}

/// A claim is cleaned up only where it names a volume that the instance itself
/// recorded.
pub proof fn law_a_claim_names_a_recorded_volume(
    volume_name: Option<Seq<char>>,
    objects: Seq<RenderedObjectRef>,
)
    ensures
        kube::binding_outcome(volume_name, objects) is Ok <==> volume_name is Some
            && volume_name->Some_0.len() > 0 && exists|i: int|
            0 <= i < objects.len() && (#[trigger] objects[i]).kind@ == "PersistentVolume"@
                && objects[i].name@ == volume_name->Some_0 && objects[i].namespace@.len() == 0,
        kube::binding_outcome(volume_name, objects) matches Ok(name) ==> volume_name == Some(name),
        kube::binding_outcome(volume_name, objects) matches Err(error) ==> error.kind
            == ClientErrorKind::Permanent,
{
}

/// A change can be tied to an object only by both halves of its identity.
pub proof fn law_an_identity_has_two_halves(identity: LiveObjectIdentity)
    ensures
        kube::identity_verdict(identity) is Ok <==> identity.uid@.len() > 0
            && identity.resource_version@.len() > 0,
{
}

/// A scheme begins with a letter and goes on with letters, digits and `+`, `-` or
/// `.`.
pub proof fn law_a_scheme_begins_with_a_letter(scheme: Seq<char>, at: int)
    requires
        kube::uri_scheme(scheme),
        0 <= at < scheme.len(),
    ensures
        'a' <= text::small_letter(scheme[0]) <= 'z',
        'a' <= text::small_letter(scheme[at]) <= 'z' || '0' <= scheme[at] <= '9' || scheme[at]
            == '+' || scheme[at] == '-' || scheme[at] == '.',
        forall|i: int| 0 <= i < scheme.len() ==> #[trigger] scheme[i] != ':' && scheme[i] != '/',
{
}

// ---------------------------------------------------------------------------
// References and settings
// ---------------------------------------------------------------------------
/// An object is found again by its version, kind, namespace and name.
pub proof fn law_an_object_is_found_again(reference: RenderedObjectRef, object: KubernetesObjectView)
    requires
        materializer::refers_to(reference, object),
    ensures
        reference.api_version@ == objects::api_version_of(object),
        reference.kind@ == objects::kind_of(object),
        objects::metadata_of(object).namespace is Some ==> reference.namespace@
            == objects::metadata_of(object).namespace->Some_0,
        objects::metadata_of(object).namespace is None ==> reference.namespace@.len() == 0,
        reference.name@ == objects::metadata_of(object).name,
        kube::is_service(reference) <==> reference.api_version@ == "v1"@
            && reference.kind@ == "Service"@,
{
}

/// The settings of the client can be used exactly where it says who it is, the scheme is one
/// and no time is zero; the first that cannot is named.
pub proof fn law_a_client_can_be_used(config: KubeMaterializerClientConfig)
    ensures
        kube::invalid_setting(config) is None <==> {
            &&& !text::blank(config.field_manager@)
            &&& kube::uri_scheme(config.backend_scheme@)
            &&& config.delete_timeout@ > 0
            &&& config.pvc_bound_timeout@ > 0
            &&& config.readiness_timeout@ > 0
            &&& config.poll_interval@ > 0
        },
        text::blank(config.field_manager@) ==> kube::invalid_setting(config) == Some(
            "field_manager"@,
        ),
        kube::invalid_setting(config) == Some("backend_scheme"@)
            ==> !kube::uri_scheme(config.backend_scheme@),
        kube::invalid_setting(config) == Some("poll_interval"@)
            ==> config.poll_interval@ == 0,
{
    reveal_strlit("field_manager");
    reveal_strlit("backend_scheme");
    reveal_strlit("delete_timeout");
    reveal_strlit("pvc_bound_timeout");
    reveal_strlit("readiness_timeout");
    reveal_strlit("poll_interval");
    assert("field_manager"@[0] == 'f');
    assert("backend_scheme"@[0] == 'b');
    assert("delete_timeout"@[0] == 'd');
    assert("pvc_bound_timeout"@[1] == 'v');
    assert("readiness_timeout"@[0] == 'r');
    assert("poll_interval"@[0] == 'p');
    assert("poll_interval"@[1] == 'o');
}

} // verus!
