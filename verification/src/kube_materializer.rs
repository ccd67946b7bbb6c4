//! How the objects of an instance are reached in a cluster, and what the cluster's
//! answers mean.

use crate::backend::{BackendAddress, BackendEndpoint, BackendEndpointView};
use crate::duration::Duration;
use crate::json::{self, copied_members, Json, JsonView};
use crate::manifest::objects::KubernetesObject;
use crate::manifest::serialize;
use crate::manifest::{self, LABEL_INSTANCE_ID};
use crate::materialization::RenderedObjectRef;
use crate::materializer::{self, ClientErrorView, KubernetesClientError};
use crate::net::{self, parse_ip, SocketAddr};
use crate::projection::{LiveObjectIdentity, LiveObjectMetadata, ProjectionReadinessInspection};
use crate::string_map::{self, StringMap};
use crate::text::{self, characters, is_blank, same_text, signed_decimal_text, text_before, text_of};
use vstd::prelude::*;
use vstd::string::*;

verus! {

/// The name under which the control plane changes objects.
pub const DEFAULT_FIELD_MANAGER: &'static str = "sleepypods-control-plane";

/// The label by which the slices of a Service are found.
pub const SERVICE_NAME_LABEL: &'static str = "kubernetes.io/service-name";

/// The annotation that tells which protocol the backend of a Service speaks.
pub const BACKEND_SCHEME_ANNOTATION: &'static str = "sleepypods.io/backend-scheme";

// ---------------------------------------------------------------------------
// Configuration
// ---------------------------------------------------------------------------
/// How the materializer talks to the cluster.
#[derive(Clone, Debug, PartialEq, Eq)]
pub struct KubeMaterializerClientConfig {
    pub field_manager: String,
    pub backend_scheme: String,
    pub delete_timeout: Duration,
    pub pvc_bound_timeout: Duration,
    pub readiness_timeout: Duration,
    pub poll_interval: Duration,
}

/// A setting that cannot be used.
#[derive(Clone, Debug, PartialEq, Eq)]
pub struct InvalidKubeMaterializerClientConfig {
    field: &'static str,
}

impl InvalidKubeMaterializerClientConfig {
    /// The setting that cannot be used.
    pub closed spec fn field_view(self) -> Seq<char> {
        self.field@
    }

    /// The setting that cannot be used.
    pub fn field(&self) -> (field: &'static str)
        ensures
            field@ == self.field_view(),
    {
        self.field
    }

    /// The sentence that tells an operator so.
    pub fn to_text(&self) -> (sentence: String)
        ensures
            sentence@ == "Kubernetes materializer config "@ + self.field_view()
                + " is invalid"@,
    {
        "Kubernetes materializer config ".to_owned().concat(self.field).concat(" is invalid")
    }
}

/// A letter of the Latin alphabet without marks.
pub open spec fn ascii_letter(character: char) -> bool {
    'a' <= character <= 'z' || 'A' <= character <= 'Z'
}

/// A character that may follow the first of a scheme.
pub open spec fn scheme_character(character: char) -> bool {
    ascii_letter(character) || '0' <= character <= '9' || character == '+' || character == '-'
        || character == '.'
}

/// A text that can stand before the colon of a URI.
pub open spec fn uri_scheme(scheme: Seq<char>) -> bool {
    &&& scheme.len() > 0
    &&& ascii_letter(scheme[0])
    &&& forall|i: int| 1 <= i < scheme.len() ==> scheme_character(#[trigger] scheme[i])
}

/// Whether a text can stand before the colon of a URI.
pub fn is_valid_uri_scheme(scheme: &str) -> (valid: bool)
    ensures
        valid == uri_scheme(scheme@),
{
    let list = characters(scheme);
    if list.len() == 0 {
        return false;
    }
    let first = list[0];
    if !(('a' <= first && first <= 'z') || ('A' <= first && first <= 'Z')) {
        return false;
    }
    let mut at: usize = 1;
    while at < list.len()
        invariant
            1 <= at <= list.len(),
            list@ == scheme@,
            forall|i: int| 1 <= i < at ==> scheme_character(#[trigger] scheme@[i]),
        decreases list.len() - at,
    {
        let character = list[at];
        let letter = ('a' <= character && character <= 'z') || ('A' <= character && character
            <= 'Z');
        let digit = '0' <= character && character <= '9';
        let mark = character == '+' || character == '-' || character == '.';
        if !(letter || digit || mark) {
            assert(!scheme_character(scheme@[at as int]));
            return false;
        }
        at = at + 1;
    }
    true
}

/// The first setting that cannot be used.
pub open spec fn invalid_setting(config: KubeMaterializerClientConfig) -> Option<Seq<char>> {
    if text::blank(config.field_manager@) {
        Some("field_manager"@)
    } else if !uri_scheme(config.backend_scheme@) {
        Some("backend_scheme"@)
    } else if config.delete_timeout@ == 0 {
        Some("delete_timeout"@)
    } else if config.pvc_bound_timeout@ == 0 {
        Some("pvc_bound_timeout"@)
    } else if config.readiness_timeout@ == 0 {
        Some("readiness_timeout"@)
    } else if config.poll_interval@ == 0 {
        Some("poll_interval"@)
    } else {
        None
    }
}

impl Default for KubeMaterializerClientConfig {
    fn default() -> (config: KubeMaterializerClientConfig)
        ensures
            config.field_manager@ == DEFAULT_FIELD_MANAGER@,
            config.backend_scheme@ == "http"@,
            config.delete_timeout@ == 10_000_000_000,
            config.pvc_bound_timeout@ == 120_000_000_000,
            config.readiness_timeout@ == 120_000_000_000,
            config.poll_interval@ == 2_000_000_000,
            invalid_setting(config) is None,
    {
        proof {
            reveal_strlit("http");
            reveal_strlit("sleepypods-control-plane");
            assert(!text::white_space(DEFAULT_FIELD_MANAGER@[0]));
        }
        KubeMaterializerClientConfig {
            field_manager: DEFAULT_FIELD_MANAGER.to_owned(),
            backend_scheme: "http".to_owned(),
            delete_timeout: Duration::from_secs(10),
            pvc_bound_timeout: Duration::from_secs(120),
            readiness_timeout: Duration::from_secs(120),
            poll_interval: Duration::from_secs(2),
        }
    }
}

impl KubeMaterializerClientConfig {
    /// Checks the settings, the first that cannot be used before the others.
    pub fn validate(&self) -> (result: Result<(), InvalidKubeMaterializerClientConfig>)
        ensures
            match result {
                Ok(_) => invalid_setting(*self) is None,
                Err(error) => invalid_setting(*self) == Some(error.field_view()),
            },
    {
        if is_blank(self.field_manager.as_str()) {
            return Err(InvalidKubeMaterializerClientConfig { field: "field_manager" });
        }
        if !is_valid_uri_scheme(self.backend_scheme.as_str()) {
            return Err(InvalidKubeMaterializerClientConfig { field: "backend_scheme" });
        }
        if self.delete_timeout.is_zero() {
            return Err(InvalidKubeMaterializerClientConfig { field: "delete_timeout" });
        }
        if self.pvc_bound_timeout.is_zero() {
            return Err(InvalidKubeMaterializerClientConfig { field: "pvc_bound_timeout" });
        }
        if self.readiness_timeout.is_zero() {
            return Err(InvalidKubeMaterializerClientConfig { field: "readiness_timeout" });
        }
        if self.poll_interval.is_zero() {
            return Err(InvalidKubeMaterializerClientConfig { field: "poll_interval" });
        }
        Ok(())
    }
}

// ---------------------------------------------------------------------------
// Resources
// ---------------------------------------------------------------------------
/// What the cluster calls the objects of a kind.
#[derive(Clone, Debug, PartialEq, Eq)]
pub struct ApiResource {
    pub group: String,
    pub version: String,
    pub api_version: String,
    pub kind: String,
    pub plural: String,
}

/// The mathematical model of an [`ApiResource`].
#[verifier::ext_equal]
pub struct ApiResourceView {
    pub group: Seq<char>,
    pub version: Seq<char>,
    pub api_version: Seq<char>,
    pub kind: Seq<char>,
    pub plural: Seq<char>,
}

impl View for ApiResource {
    type V = ApiResourceView;

    open spec fn view(&self) -> ApiResourceView {
        ApiResourceView {
            group: self.group@,
            version: self.version@,
            api_version: self.api_version@,
            kind: self.kind@,
            plural: self.plural@,
        }
    }
}

/// The place of the last slash before a place.
pub open spec fn last_slash(content: Seq<char>, to: int) -> Option<int>
    decreases to,
{
    if to <= 0 {
        None
    } else if content[to - 1] == '/' {
        Some(to - 1)
    } else {
        last_slash(content, to - 1)
    }
}

/// The group and the version of an API version: what stands before the last
/// slash, and behind it. The core group has no name and no slash.
pub open spec fn api_version_parts(api_version: Seq<char>) -> (Seq<char>, Seq<char>) {
    match last_slash(api_version, api_version.len() as int) {
        Some(at) => (api_version.take(at), api_version.skip(at + 1)),
        None => (Seq::empty(), api_version),
    }
}

/// Splits an API version into its group and its version.
pub fn split_api_version(api_version: &str) -> (parts: (String, String))
    ensures
        (parts.0@, parts.1@) == api_version_parts(api_version@),
{
    let list = characters(api_version);
    let mut to: usize = list.len();
    while to > 0
        invariant
            to <= list@.len(),
            list@ == api_version@,
            last_slash(api_version@, list@.len() as int) == last_slash(api_version@, to as int),
        decreases to,
    {
        if list[to - 1] == '/' {
            let group = text_of(&list, 0, to - 1);
            let version = text_of(&list, to, list.len());
            assert(group@ =~= api_version@.take(to - 1));
            assert(version@ =~= api_version@.skip(to as int));
            return (group, version);
        }
        to = to - 1;
    }
    let group = String::new();
    assert(group@ =~= Seq::<char>::empty());
    (group, api_version.to_owned())
}

/// What the cluster calls the objects of a kind, as far as the control plane
/// renders them: volumes belong to the cluster and all others to a namespace.
pub open spec fn plural_of(api_version: Seq<char>, kind: Seq<char>, clustered: bool) -> Option<
    Seq<char>,
> {
    if api_version == "apps/v1"@ && kind == "Deployment"@ && !clustered {
        Some("deployments"@)
    } else if api_version == "apps/v1"@ && kind == "StatefulSet"@ && !clustered {
        Some("statefulsets"@)
    } else if api_version == "v1"@ && kind == "Service"@ && !clustered {
        Some("services"@)
    } else if api_version == "v1"@ && kind == "Secret"@ && !clustered {
        Some("secrets"@)
    } else if api_version == "v1"@ && kind == "PersistentVolume"@ && clustered {
        Some("persistentvolumes"@)
    } else if api_version == "v1"@ && kind == "PersistentVolumeClaim"@ && !clustered {
        Some("persistentvolumeclaims"@)
    } else {
        None
    }
}

/// The resource that an object belongs to.
pub open spec fn resource_outcome(object: RenderedObjectRef) -> Result<
    ApiResourceView,
    ClientErrorView,
> {
    match plural_of(object.api_version@, object.kind@, object.namespace@.len() == 0) {
        None => Err(
            materializer::permanent(
                "unsupported rendered Kubernetes object "@ + object.api_version@ + " "@
                    + object.kind@ + " "@ + object.namespace@ + "/"@ + object.name@,
            ),
        ),
        Some(plural) => Ok(
            ApiResourceView {
                group: api_version_parts(object.api_version@).0,
                version: api_version_parts(object.api_version@).1,
                api_version: object.api_version@,
                kind: object.kind@,
                plural,
            },
        ),
    }
}

fn known_plural(api_version: &str, kind: &str, clustered: bool) -> (plural: Option<&'static str>)
    ensures
        match plural {
            Some(plural) => plural_of(api_version@, kind@, clustered) == Some(plural@),
            None => plural_of(api_version@, kind@, clustered) is None,
        },
{
    let apps = same_text(api_version, "apps/v1");
    let core = same_text(api_version, "v1");
    if apps && same_text(kind, "Deployment") && !clustered {
        Some("deployments")
    } else if apps && same_text(kind, "StatefulSet") && !clustered {
        Some("statefulsets")
    } else if core && same_text(kind, "Service") && !clustered {
        Some("services")
    } else if core && same_text(kind, "Secret") && !clustered {
        Some("secrets")
    } else if core && same_text(kind, "PersistentVolume") && clustered {
        Some("persistentvolumes")
    } else if core && same_text(kind, "PersistentVolumeClaim") && !clustered {
        Some("persistentvolumeclaims")
    } else {
        None
    }
}

/// The resource that an object belongs to.
pub fn api_resource_for_ref(object: &RenderedObjectRef) -> (result: Result<
    ApiResource,
    KubernetesClientError,
>)
    ensures
        materializer::answer(result) == resource_outcome(*object),
{
    match known_plural(
        object.api_version.as_str(),
        object.kind.as_str(),
        object.namespace.as_str().is_empty(),
    ) {
        None => {
            let message = "unsupported rendered Kubernetes object ".to_owned().concat(
                object.api_version.as_str(),
            ).concat(" ").concat(object.kind.as_str()).concat(" ").concat(
                object.namespace.as_str(),
            ).concat("/").concat(object.name.as_str());
            Err(KubernetesClientError::new(message.as_str()))
        },
        Some(plural) => {
            let (group, version) = split_api_version(object.api_version.as_str());
            Ok(
                ApiResource {
                    group,
                    version,
                    api_version: object.api_version.clone(),
                    kind: object.kind.clone(),
                    plural: plural.to_owned(),
                },
            )
        },
    }
}

/// An object is the Service of an instance.
pub open spec fn is_service(object: RenderedObjectRef) -> bool {
    object.api_version@ == "v1"@ && object.kind@ == "Service"@
}

/// Finds the Service of an instance among its objects: the first there is.
pub fn rendered_service_ref(objects: &Vec<RenderedObjectRef>) -> (result: Result<
    &RenderedObjectRef,
    KubernetesClientError,
>)
    ensures
        match result {
            Ok(found) => exists|i: int|
                #![trigger objects@[i]]
                0 <= i < objects@.len() && *found == objects@[i] && is_service(objects@[i]) && forall|
                    j: int,
                |
                    0 <= j < i ==> !is_service(#[trigger] objects@[j]),
            Err(error) => error@ == materializer::permanent(
                "rendered Kubernetes objects do not include a Service for readiness"@,
            ) && forall|j: int| 0 <= j < objects@.len() ==> !is_service(#[trigger] objects@[j]),
        },
{
    let mut at: usize = 0;
    while at < objects.len()
        invariant
            at <= objects.len(),
            forall|j: int| 0 <= j < at ==> !is_service(#[trigger] objects@[j]),
        decreases objects.len() - at,
    {
        if same_text(objects[at].api_version.as_str(), "v1") && same_text(
            objects[at].kind.as_str(),
            "Service",
        ) {
            assert(is_service(objects@[at as int]));
            return Ok(&objects[at]);
        }
        at = at + 1;
    }
    Err(
        KubernetesClientError::new(
            "rendered Kubernetes objects do not include a Service for readiness",
        ),
    )
}

// ---------------------------------------------------------------------------
// A Service and its slices, as the cluster shows them
// ---------------------------------------------------------------------------
/// What is read of a Service.
#[derive(Clone, Debug, PartialEq, Eq)]
pub struct LiveService {
    pub name: Option<String>,
    pub namespace: Option<String>,
    pub uid: Option<String>,
    pub deleting: bool,
    pub annotations: StringMap<String>,
    /// The ports, where the Service has a list of them.
    pub ports: Option<Vec<i32>>,
}

/// The owner of an object.
#[derive(Clone, Debug, PartialEq, Eq)]
pub struct LiveOwner {
    pub api_version: String,
    pub kind: String,
    pub name: String,
    pub uid: String,
    pub controller: Option<bool>,
}

/// What is read of one endpoint of a slice.
#[derive(Clone, Debug, PartialEq, Eq)]
pub struct LiveEndpoint {
    pub addresses: Vec<String>,
    pub ready: Option<bool>,
    pub terminating: Option<bool>,
}

/// What is read of an EndpointSlice.
#[derive(Clone, Debug, PartialEq, Eq)]
pub struct LiveEndpointSlice {
    pub name: Option<String>,
    pub deleting: bool,
    pub owners: Vec<LiveOwner>,
    pub address_type: String,
    pub endpoints: Vec<LiveEndpoint>,
    /// The ports, where the slice has a list of them; each may be open.
    pub ports: Option<Vec<Option<i32>>>,
}

/// An owner is the Service, and in charge.
pub open spec fn owner_is(owner: LiveOwner, name: Option<Seq<char>>, uid: Seq<char>) -> bool {
    &&& owner.api_version@ == "v1"@
    &&& owner.kind@ == "Service"@
    &&& owner.uid@ == uid
    &&& name == Some(owner.name@)
    &&& owner.controller == Some(true)
}

/// A slice belongs to the very Service that is there: its owner, with the same
/// identity, and neither on its way out.
pub open spec fn slice_belongs(service: LiveService, slice: LiveEndpointSlice) -> bool {
    match service.uid {
        None => false,
        Some(uid) => {
            &&& uid@.len() > 0
            &&& !service.deleting
            &&& !slice.deleting
            &&& exists|i: int|
                0 <= i < slice.owners@.len() && owner_is(
                    #[trigger] slice.owners@[i],
                    manifest::optional_view(service.name),
                    uid@,
                )
        },
    }
}

fn owner_matches(owner: &LiveOwner, name: &Option<String>, uid: &str) -> (matches: bool)
    ensures
        matches == owner_is(*owner, manifest::optional_view(*name), uid@),
{
    let named = match name {
        Some(name) => same_text(owner.name.as_str(), name.as_str()),
        None => false,
    };
    let charged = match owner.controller {
        Some(controller) => controller,
        None => false,
    };
    same_text(owner.api_version.as_str(), "v1") && same_text(owner.kind.as_str(), "Service")
        && same_text(owner.uid.as_str(), uid) && named && charged
}

/// Whether a slice belongs to the very Service that is there.
pub fn slice_belongs_to_service(service: &LiveService, slice: &LiveEndpointSlice) -> (belongs: bool)
    ensures
        belongs == slice_belongs(*service, *slice),
{
    match &service.uid {
        None => false,
        Some(uid) => {
            if uid.as_str().is_empty() || service.deleting || slice.deleting {
                return false;
            }
            let mut at: usize = 0;
            while at < slice.owners.len()
                invariant
                    at <= slice.owners.len(),
                    service.uid == Some(*uid),
                    uid@.len() > 0,
                    !service.deleting,
                    !slice.deleting,
                    forall|i: int|
                        0 <= i < at ==> !owner_is(
                            #[trigger] slice.owners@[i],
                            manifest::optional_view(service.name),
                            uid@,
                        ),
                decreases slice.owners.len() - at,
            {
                if owner_matches(&slice.owners[at], &service.name, uid.as_str()) {
                    return true;
                }
                at = at + 1;
            }
            false
        },
    }
}

/// An endpoint takes traffic: it has an address, is not on its way out, and is
/// not said to be unready.
pub open spec fn takes_traffic(endpoint: LiveEndpoint) -> bool {
    &&& endpoint.addresses@.len() > 0
    &&& endpoint.terminating != Some(true)
    &&& endpoint.ready != Some(false)
}

/// The first endpoint, from a place on, that takes traffic.
pub open spec fn first_ready(endpoints: Seq<LiveEndpoint>, from: int) -> Option<int>
    decreases endpoints.len() - from,
{
    if from < 0 || from >= endpoints.len() {
        None
    } else if takes_traffic(endpoints[from]) {
        Some(from)
    } else {
        first_ready(endpoints, from + 1)
    }
}

proof fn lemma_first_ready(endpoints: Seq<LiveEndpoint>, from: int)
    ensures
        first_ready(endpoints, from) matches Some(at) ==> 0 <= at < endpoints.len(),
    decreases endpoints.len() - from,
{
    if 0 <= from < endpoints.len() && !takes_traffic(endpoints[from]) {
        lemma_first_ready(endpoints, from + 1);
    }
}

fn first_ready_endpoint(slice: &LiveEndpointSlice) -> (found: Option<usize>)
    ensures
        match found {
            Some(at) => first_ready(slice.endpoints@, 0) == Some(at as int) && at
                < slice.endpoints@.len(),
            None => first_ready(slice.endpoints@, 0) is None,
        },
{
    let endpoints = &slice.endpoints;
    let mut at: usize = 0;
    while at < endpoints.len()
        invariant
            at <= endpoints.len(),
            endpoints@ == slice.endpoints@,
            first_ready(endpoints@, 0) == first_ready(endpoints@, at as int),
        decreases endpoints.len() - at,
    {
        let endpoint = &endpoints[at];
        let ending = match endpoint.terminating {
            Some(terminating) => terminating,
            None => false,
        };
        let ready = match endpoint.ready {
            Some(ready) => ready,
            None => true,
        };
        if endpoint.addresses.len() > 0 && !ending && ready {
            return Some(at);
        }
        at = at + 1;
    }
    None
}

/// A slice of the Service with an endpoint that takes traffic.
pub open spec fn ready_slice(service: LiveService, slice: LiveEndpointSlice) -> bool {
    slice_belongs(service, slice) && first_ready(slice.endpoints@, 0) is Some
}

/// Whether a slice of the Service has an endpoint that takes traffic.
pub fn endpoint_slice_has_ready_endpoint(service: &LiveService, slice: &LiveEndpointSlice) -> (ready:
    bool)
    ensures
        ready == ready_slice(*service, *slice),
{
    slice_belongs_to_service(service, slice) && first_ready_endpoint(slice).is_some()
}

/// A port that can be connected to.
pub open spec fn usable_port(port: Option<i32>) -> Option<u16> {
    match port {
        Some(number) => if 0 < number <= 65535 {
            Some(number as u16)
        } else {
            None
        },
        None => None,
    }
}

/// The first port, from a place on, that can be connected to.
pub open spec fn first_port(ports: Seq<Option<i32>>, from: int) -> Option<u16>
    decreases ports.len() - from,
{
    if from < 0 || from >= ports.len() {
        None
    } else {
        match usable_port(ports[from]) {
            Some(port) => Some(port),
            None => first_port(ports, from + 1),
        }
    }
}

/// The port of a slice.
pub open spec fn slice_port(slice: LiveEndpointSlice) -> Option<u16> {
    match slice.ports {
        Some(ports) => first_port(ports@, 0),
        None => None,
    }
}

fn endpoint_slice_port(slice: &LiveEndpointSlice) -> (port: Option<u16>)
    ensures
        port == slice_port(*slice),
{
    match &slice.ports {
        None => None,
        Some(ports) => {
            let mut at: usize = 0;
            while at < ports.len()
                invariant
                    at <= ports.len(),
                    slice.ports == Some(*ports),
                    first_port(ports@, 0) == first_port(ports@, at as int),
                decreases ports.len() - at,
            {
                if let Some(number) = ports[at] {
                    if 0 < number && number <= 65535 {
                        return Some(number as u16);
                    }
                }
                at = at + 1;
            }
            None
        },
    }
}

/// Where a slice says that the Service can be reached: at the first address of its
/// first ready endpoint, if that is a number and the slice has a port.
pub open spec fn candidate(service: LiveService, slice: LiveEndpointSlice) -> Option<SocketAddr> {
    if !slice_belongs(service, slice) {
        None
    } else {
        match (slice_port(slice), first_ready(slice.endpoints@, 0)) {
            (Some(port), Some(at)) => match net::parsed_ip(slice.endpoints@[at].addresses@[0]@) {
                Some(ip) => Some(SocketAddr { ip, port, scope_id: 0 }),
                None => None,
            },
            _ => None,
        }
    }
}

proof fn lemma_first_port(ports: Seq<Option<i32>>, from: int)
    ensures
        first_port(ports, from) matches Some(port) ==> port != 0,
    decreases ports.len() - from,
{
    if 0 <= from < ports.len() {
        lemma_first_port(ports, from + 1);
    }
}

fn slice_address(service: &LiveService, slice: &LiveEndpointSlice) -> (address: Option<
    BackendAddress,
>)
    ensures
        match address {
            Some(address) => candidate(*service, *slice) == Some(address@),
            None => candidate(*service, *slice) is None,
        },
{
    if !slice_belongs_to_service(service, slice) {
        return None;
    }
    proof {
        if slice.ports is Some {
            lemma_first_port(slice.ports->Some_0@, 0);
        }
        lemma_first_ready(slice.endpoints@, 0);
        lemma_ready_takes(slice.endpoints@, 0);
    }
    match (endpoint_slice_port(slice), first_ready_endpoint(slice)) {
        (Some(port), Some(at)) => {
            match parse_ip(slice.endpoints[at].addresses[0].as_str()) {
                Some(ip) => match BackendAddress::new(SocketAddr { ip, port, scope_id: 0 }) {
                    Ok(address) => Some(address),
                    Err(_) => None,
                },
                None => None,
            }
        },
        _ => None,
    }
}

proof fn lemma_ready_takes(endpoints: Seq<LiveEndpoint>, from: int)
    ensures
        first_ready(endpoints, from) matches Some(at) ==> takes_traffic(endpoints[at]),
    decreases endpoints.len() - from,
{
    if 0 <= from < endpoints.len() && !takes_traffic(endpoints[from]) {
        lemma_ready_takes(endpoints, from + 1);
    }
}

/// The name of a slice, empty where it has none.
pub open spec fn slice_name(slice: LiveEndpointSlice) -> Seq<char> {
    match slice.name {
        Some(name) => name@,
        None => Seq::empty(),
    }
}

/// One slice comes before another: by the type of its addresses, then by its
/// name.
pub open spec fn slice_before(left: LiveEndpointSlice, right: LiveEndpointSlice) -> bool {
    ||| text::text_lt(left.address_type@, right.address_type@)
    ||| left.address_type@ == right.address_type@ && text::text_lt(
        slice_name(left),
        slice_name(right),
    )
}

/// Which of the first `count` slices tells the address: of those that say where
/// the Service can be reached, the one that comes before the others.
pub open spec fn chosen_slice(
    service: LiveService,
    slices: Seq<LiveEndpointSlice>,
    count: nat,
) -> Option<int>
    decreases count,
{
    if count == 0 || count > slices.len() {
        None
    } else {
        let before = chosen_slice(service, slices, (count - 1) as nat);
        if candidate(service, slices[count - 1]) is None {
            before
        } else {
            match before {
                Some(at) => if slice_before(slices[count - 1], slices[at]) {
                    Some(count - 1)
                } else {
                    Some(at)
                },
                None => Some(count - 1),
            }
        }
    }
}

/// The address a ready endpoint was observed at. A dual-stack Service presents one
/// slice per address family, so the lowest pair of address type and slice name
/// wins and repeated reads of an unchanged Service agree.
pub open spec fn ready_address(service: LiveService, slices: Seq<LiveEndpointSlice>) -> Option<
    SocketAddr,
> {
    match chosen_slice(service, slices, slices.len()) {
        Some(at) => candidate(service, slices[at]),
        None => None,
    }
}

proof fn lemma_slice_order(
    a: LiveEndpointSlice,
    b: LiveEndpointSlice,
    c: LiveEndpointSlice,
)
    ensures
        !slice_before(a, a),
        slice_before(a, b) && slice_before(b, c) ==> slice_before(a, c),
        slice_before(a, b) || slice_before(b, a) || (a.address_type@ == b.address_type@
            && slice_name(a) == slice_name(b)),
        slice_before(a, b) ==> !slice_before(b, a),
{
    let (x, y, z) = (a.address_type@, b.address_type@, c.address_type@);
    let (l, m, n) = (slice_name(a), slice_name(b), slice_name(c));
    text::lemma_text_lt_irreflexive(x);
    text::lemma_text_lt_irreflexive(l);
    text::lemma_text_lt_total(x, y);
    text::lemma_text_lt_total(l, m);
    if text::text_lt(x, y) && text::text_lt(y, z) {
        text::lemma_text_lt_transitive(x, y, z);
    }
    if text::text_lt(l, m) && text::text_lt(m, n) {
        text::lemma_text_lt_transitive(l, m, n);
    }
    if text::text_lt(x, y) && text::text_lt(y, x) {
        text::lemma_text_lt_transitive(x, y, x);
    }
    if text::text_lt(l, m) && text::text_lt(m, l) {
        text::lemma_text_lt_transitive(l, m, l);
    }
}

proof fn lemma_chosen(service: LiveService, slices: Seq<LiveEndpointSlice>, count: nat)
    requires
        count <= slices.len(),
    ensures
        match chosen_slice(service, slices, count) {
            Some(at) => {
                &&& 0 <= at < count
                &&& candidate(service, slices[at]) is Some
                &&& forall|i: int|
                    0 <= i < count && candidate(service, #[trigger] slices[i]) is Some
                        ==> !slice_before(slices[i], slices[at])
            },
            None => forall|i: int|
                0 <= i < count ==> candidate(service, #[trigger] slices[i]) is None,
        },
    decreases count,
{
    if count > 0 {
        lemma_chosen(service, slices, (count - 1) as nat);
        let last = slices[count - 1];
        if candidate(service, last) is Some {
            if let Some(at) = chosen_slice(service, slices, (count - 1) as nat) {
                lemma_slice_order(last, last, last);
                assert forall|i: int|
                    0 <= i < count && candidate(service, #[trigger] slices[i]) is Some implies {
                    let won = if slice_before(last, slices[at]) {
                        last
                    } else {
                        slices[at]
                    };
                    !slice_before(slices[i], won)
                } by {
                    lemma_slice_order(slices[i], last, slices[at]);
                }
            } else {
                lemma_slice_order(last, last, last);
            }
        }
    }
}

/// Every slice of one list that says where the Service can be reached stands in
/// the other.
pub open spec fn candidates_among(
    service: LiveService,
    slices: Seq<LiveEndpointSlice>,
    others: Seq<LiveEndpointSlice>,
) -> bool {
    forall|i: int|
        0 <= i < slices.len() && candidate(service, #[trigger] slices[i]) is Some
            ==> others.contains(slices[i])
}

/// No two slices that say where the Service can be reached share a type and a
/// name, unless they say the same.
pub open spec fn slices_told_apart(service: LiveService, slices: Seq<LiveEndpointSlice>) -> bool {
    forall|i: int, j: int|
        #![trigger slices[i], slices[j]]
        0 <= i < slices.len() && 0 <= j < slices.len() && candidate(service, slices[i]) is Some
            && candidate(service, slices[j]) is Some && slices[i].address_type@
            == slices[j].address_type@ && slice_name(slices[i]) == slice_name(slices[j])
            ==> candidate(service, slices[i]) == candidate(service, slices[j])
}

/// The order in which the slices of a Service are listed does not change the
/// address: two lists of the same slices give the same one.
pub proof fn law_address_ignores_order(
    service: LiveService,
    slices: Seq<LiveEndpointSlice>,
    others: Seq<LiveEndpointSlice>,
)
    requires
        slices_told_apart(service, slices),
        candidates_among(service, slices, others),
        candidates_among(service, others, slices),
    ensures
        ready_address(service, slices) == ready_address(service, others),
{
    lemma_chosen(service, slices, slices.len());
    lemma_chosen(service, others, others.len());
    match (
        chosen_slice(service, slices, slices.len()),
        chosen_slice(service, others, others.len()),
    ) {
        (Some(at), Some(to)) => {
            let one = slices[at];
            let two = others[to];
            let p = choose|p: int| 0 <= p < others.len() && others[p] == one;
            let q = choose|q: int| 0 <= q < slices.len() && slices[q] == two;
            assert(!slice_before(others[p], others[to]));
            assert(!slice_before(slices[q], slices[at]));
            lemma_slice_order(one, two, one);
        },
        (Some(at), None) => {
            let p = choose|p: int| 0 <= p < others.len() && others[p] == slices[at];
            assert(candidate(service, others[p]) is None);
        },
        (None, Some(to)) => {
            let q = choose|q: int| 0 <= q < slices.len() && slices[q] == others[to];
            assert(candidate(service, slices[q]) is None);
        },
        (None, None) => {},
    }
}

fn name_text(slice: &LiveEndpointSlice) -> (name: &str)
    ensures
        name@ == slice_name(*slice),
{
    match &slice.name {
        Some(name) => name.as_str(),
        None => {
            proof {
                reveal_strlit("");
                assert(""@ =~= Seq::<char>::empty());
            }
            ""
        },
    }
}

fn comes_before(left: &LiveEndpointSlice, right: &LiveEndpointSlice) -> (before: bool)
    ensures
        before == slice_before(*left, *right),
{
    let left_type = left.address_type.as_str();
    let right_type = right.address_type.as_str();
    text_before(left_type, right_type) || (same_text(left_type, right_type) && text_before(
        name_text(left),
        name_text(right),
    ))
}

/// The address a ready endpoint was observed at, for callers that can route to it
/// without resolving the Service name.
pub fn ready_backend_address(service: &LiveService, slices: &Vec<LiveEndpointSlice>) -> (address:
    Option<BackendAddress>)
    ensures
        match address {
            Some(address) => ready_address(*service, slices@) == Some(address@),
            None => ready_address(*service, slices@) is None,
        },
{
    let mut chosen: Option<(usize, BackendAddress)> = None;
    let mut at: usize = 0;
    while at < slices.len()
        invariant
            at <= slices.len(),
            match chosen {
                Some((place, address)) => {
                    &&& chosen_slice(*service, slices@, at as nat) == Some(place as int)
                    &&& place < at
                    &&& candidate(*service, slices@[place as int]) == Some(address@)
                },
                None => chosen_slice(*service, slices@, at as nat) is None,
            },
        decreases slices.len() - at,
    {
        if let Some(address) = slice_address(service, &slices[at]) {
            let wins = match &chosen {
                Some((place, _)) => comes_before(&slices[at], &slices[*place]),
                None => true,
            };
            if wins {
                chosen = Some((at, address));
            }
        }
        at = at + 1;
    }
    match chosen {
        Some((_, address)) => Some(address),
        None => None,
    }
}

// ---------------------------------------------------------------------------
// The backend of a Service
// ---------------------------------------------------------------------------
/// The port of a Service: the first of its list.
pub open spec fn service_port_outcome(service: LiveService) -> Result<i32, ClientErrorView> {
    match service.ports {
        None => Err(materializer::permanent("live Service has no spec.ports"@)),
        Some(ports) => if ports@.len() == 0 {
            Err(materializer::permanent("live Service has no ports"@))
        } else if ports@[0] <= 0 {
            Err(
                materializer::permanent(
                    "live Service port "@ + text::signed_decimal(ports@[0] as int)
                        + " is not positive"@,
                ),
            )
        } else {
            Ok(ports@[0])
        },
    }
}

fn service_port(service: &LiveService) -> (result: Result<i32, KubernetesClientError>)
    ensures
        materializer::plain_answer(result) == service_port_outcome(*service),
{
    match &service.ports {
        None => Err(KubernetesClientError::new("live Service has no spec.ports")),
        Some(ports) => {
            if ports.len() == 0 {
                return Err(KubernetesClientError::new("live Service has no ports"));
            }
            let port: i32 = ports[0];
            if port <= 0 {
                let message = "live Service port ".to_owned().concat(
                    signed_decimal_text(port as i64).as_str(),
                ).concat(" is not positive");
                return Err(KubernetesClientError::new(message.as_str()));
            }
            Ok(port)
        },
    }
}

/// The protocol of a Service: what its annotation says, or what the materializer
/// is set to.
pub open spec fn scheme_outcome(service: LiveService, config: KubeMaterializerClientConfig) -> Result<
    Seq<char>,
    ClientErrorView,
> {
    match string_map::entry_of(service.annotations@, BACKEND_SCHEME_ANNOTATION@) {
        Some(scheme) => if uri_scheme(scheme) {
            Ok(scheme)
        } else {
            Err(
                materializer::permanent(
                    "Service backend scheme annotation "@ + BACKEND_SCHEME_ANNOTATION@
                        + " is invalid"@,
                ),
            )
        },
        None => if uri_scheme(config.backend_scheme@) {
            Ok(config.backend_scheme@)
        } else {
            Err(materializer::permanent("Kubernetes materializer backend scheme is invalid"@))
        },
    }
}

fn backend_scheme_for_service<'a>(
    service: &'a LiveService,
    config: &'a KubeMaterializerClientConfig,
) -> (result: Result<&'a String, KubernetesClientError>)
    ensures
        (match result {
            Ok(scheme) => Ok(scheme@),
            Err(error) => Err(error@),
        }) == scheme_outcome(*service, *config),
{
    if let Some(annotation) = service.annotations.get(BACKEND_SCHEME_ANNOTATION) {
        if !is_valid_uri_scheme(annotation.as_str()) {
            let message = "Service backend scheme annotation ".to_owned().concat(
                BACKEND_SCHEME_ANNOTATION,
            ).concat(" is invalid");
            return Err(KubernetesClientError::new(message.as_str()));
        }
        return Ok(annotation);
    }
    if !is_valid_uri_scheme(config.backend_scheme.as_str()) {
        return Err(
            KubernetesClientError::new("Kubernetes materializer backend scheme is invalid"),
        );
    }
    Ok(&config.backend_scheme)
}

/// The URI of a Service inside the cluster.
pub open spec fn service_uri(
    scheme: Seq<char>,
    name: Seq<char>,
    namespace: Seq<char>,
    port: i32,
) -> Seq<char> {
    scheme + "://"@ + name + "."@ + namespace + ".svc.cluster.local:"@ + text::signed_decimal(
        port as int,
    )
}

/// Where the traffic of a Service goes.
pub open spec fn backend_outcome(
    service: LiveService,
    config: KubeMaterializerClientConfig,
    address: Option<BackendAddress>,
) -> Result<BackendEndpointView, ClientErrorView> {
    match scheme_outcome(service, config) {
        Err(error) => Err(error),
        Ok(scheme) => match service.name {
            None => Err(materializer::permanent("live Service is missing metadata.name"@)),
            Some(name) => match service.namespace {
                None => Err(
                    materializer::permanent("live Service is missing metadata.namespace"@),
                ),
                Some(namespace) => match service_port_outcome(service) {
                    Err(error) => Err(error),
                    Ok(port) => Ok(
                        BackendEndpointView {
                            uri: service_uri(scheme, name@, namespace@, port),
                            address,
                        },
                    ),
                },
            },
        },
    }
}

proof fn lemma_uri_shown(scheme: Seq<char>, rest: Seq<char>)
    requires
        uri_scheme(scheme),
    ensures
        !text::blank(scheme + rest),
{
    assert((scheme + rest)[0] == scheme[0]);
    assert(!text::white_space((scheme + rest)[0]));
}

/// Where the traffic of a Service goes.
pub fn backend_endpoint_for_service(
    service: &LiveService,
    config: &KubeMaterializerClientConfig,
    address: Option<BackendAddress>,
) -> (result: Result<BackendEndpoint, KubernetesClientError>)
    ensures
        materializer::answer(result) == backend_outcome(*service, *config, address),
{
    let scheme = backend_scheme_for_service(service, config)?;
    match &service.name {
        None => Err(KubernetesClientError::new("live Service is missing metadata.name")),
        Some(name) => match &service.namespace {
            None => Err(
                KubernetesClientError::new("live Service is missing metadata.namespace"),
            ),
            Some(namespace) => {
                let port: i32 = service_port(service)?;
                let uri = scheme.clone().concat("://").concat(name.as_str()).concat(".").concat(
                    namespace.as_str(),
                ).concat(".svc.cluster.local:").concat(
                    signed_decimal_text(port as i64).as_str(),
                );
                proof {
                    let rest = uri@.skip(scheme@.len() as int);
                    lemma_uri_shown(scheme@, rest);
                    assert(uri@ =~= scheme@ + rest);
                }
                let made = match address {
                    Some(address) => BackendEndpoint::with_address(uri.as_str(), address),
                    None => BackendEndpoint::new(uri.as_str()),
                };
                match made {
                    Ok(endpoint) => Ok(endpoint),
                    Err(_) => Err(KubernetesClientError::new("backend URI is blank")),
                }
            },
        },
    }
}

/// Some slice of the Service has an endpoint that takes traffic.
pub open spec fn any_ready(service: LiveService, slices: Seq<LiveEndpointSlice>) -> bool {
    exists|i: int| 0 <= i < slices.len() && ready_slice(service, #[trigger] slices[i])
}

fn has_ready_slice(service: &LiveService, slices: &Vec<LiveEndpointSlice>) -> (ready: bool)
    ensures
        ready == any_ready(*service, slices@),
{
    let mut at: usize = 0;
    while at < slices.len()
        invariant
            at <= slices.len(),
            forall|i: int| 0 <= i < at ==> !ready_slice(*service, #[trigger] slices@[i]),
        decreases slices.len() - at,
    {
        if endpoint_slice_has_ready_endpoint(service, &slices[at]) {
            return true;
        }
        at = at + 1;
    }
    false
}

/// The backend to which a Service leads right now.
pub open spec fn observed_backend(
    service: LiveService,
    slices: Seq<LiveEndpointSlice>,
    config: KubeMaterializerClientConfig,
    backend: BackendEndpointView,
) -> bool {
    exists|address: Option<BackendAddress>|
        manifest::optional_view(address) == ready_address(service, slices) && backend_outcome(
            service,
            config,
            address,
        ) == Ok::<BackendEndpointView, ClientErrorView>(backend)
}

/// Nothing is wrong with the Service itself.
pub open spec fn backend_known(service: LiveService, config: KubeMaterializerClientConfig) -> bool {
    backend_outcome(service, config, None) is Ok
}

/// Whether an instance can be used: a Service that leads nowhere is reported, never
/// an error.
pub open spec fn inspected(
    service: LiveService,
    slices: Seq<LiveEndpointSlice>,
    config: KubeMaterializerClientConfig,
    inspection: ProjectionReadinessInspection,
) -> bool {
    if !backend_known(service, config) {
        inspection matches ProjectionReadinessInspection::Unready { reason } && reason@
            == "backend_endpoint_invalid"@
    } else if any_ready(service, slices) {
        inspection matches ProjectionReadinessInspection::Ready(backend) && observed_backend(
            service,
            slices,
            config,
            backend@,
        )
    } else {
        inspection matches ProjectionReadinessInspection::Unready { reason } && reason@
            == "no_ready_endpoints"@
    }
}

/// Tells whether an instance can be used.
pub fn readiness_inspection_for_service(
    service: &LiveService,
    slices: &Vec<LiveEndpointSlice>,
    config: &KubeMaterializerClientConfig,
) -> (inspection: ProjectionReadinessInspection)
    ensures
        inspected(*service, slices@, *config, inspection),
{
    let address = ready_backend_address(service, slices);
    assert(manifest::optional_view(address) == ready_address(*service, slices@));
    match backend_endpoint_for_service(service, config, address) {
        Err(_) => ProjectionReadinessInspection::Unready {
            reason: "backend_endpoint_invalid".to_owned(),
        },
        Ok(backend) => {
            if has_ready_slice(service, slices) {
                ProjectionReadinessInspection::Ready(backend)
            } else {
                ProjectionReadinessInspection::Unready { reason: "no_ready_endpoints".to_owned() }
            }
        },
    }
}

/// One look at a Service that is waited for: its backend once an endpoint takes
/// traffic, nothing while none does, and an error where the Service leads
/// nowhere.
pub fn readiness_step(
    service: &LiveService,
    slices: &Vec<LiveEndpointSlice>,
    config: &KubeMaterializerClientConfig,
) -> (result: Result<Option<BackendEndpoint>, KubernetesClientError>)
    ensures
        match result {
            Ok(Some(backend)) => any_ready(*service, slices@) && observed_backend(
                *service,
                slices@,
                *config,
                backend@,
            ),
            Ok(None) => backend_known(*service, *config) && !any_ready(*service, slices@),
            Err(error) => backend_outcome(*service, *config, None) == Err::<
                BackendEndpointView,
                ClientErrorView,
            >(error@),
        },
{
    let address = ready_backend_address(service, slices);
    assert(manifest::optional_view(address) == ready_address(*service, slices@));
    let backend = backend_endpoint_for_service(service, config, address)?;
    if has_ready_slice(service, slices) {
        Ok(Some(backend))
    } else {
        Ok(None)
    }
}

// ---------------------------------------------------------------------------
// Waiting
// ---------------------------------------------------------------------------
/// A claim is bound to its volume.
pub fn pvc_phase_is_bound(phase: Option<&str>) -> (bound: bool)
    ensures
        bound == (phase matches Some(phase) && phase@ == "Bound"@),
{
    match phase {
        Some(phase) => same_text(phase, "Bound"),
        None => false,
    }
}

/// How long to wait before looking again: not beyond what is left until the
/// deadline, and not at all once it has come.
pub fn next_poll(remaining: Duration, poll_interval: Duration) -> (wait: Option<Duration>)
    ensures
        match wait {
            Some(wait) => remaining@ > 0 && wait@ == if poll_interval@ <= remaining@ {
                poll_interval@
            } else {
                remaining@
            },
            None => remaining@ == 0,
        },
{
    if remaining.is_zero() {
        None
    } else {
        Some(poll_interval.shortest(remaining))
    }
}

// ---------------------------------------------------------------------------
// Failures of the cluster
// ---------------------------------------------------------------------------
/// Where a request to the cluster failed.
#[derive(Clone, Debug, PartialEq, Eq)]
pub enum KubeFailureKind {
    /// The cluster answered with a status.
    Api { code: u16, reason: String },
    /// The connection failed under way.
    Connection,
    /// The request could not be made.
    Request,
    /// Anything else.
    Other,
}

/// A failed request to the cluster.
#[derive(Clone, Debug, PartialEq, Eq)]
pub struct KubeFailure {
    pub kind: KubeFailureKind,
    pub message: String,
}

/// Calls [`kube::core::Status::is_not_found`] on a status with this code and
/// reason. It goes by the reason alone: `NotFound` is one of the reasons it knows,
/// so the code is never looked at.
#[verifier::external_body]
fn status_is_not_found(code: u16, reason: &str) -> (found: bool)
    ensures
        found == (reason@ == "NotFound"@),
{
    let status = kube::core::Status { code, reason: reason.to_owned(), ..Default::default() };
    status.is_not_found()
}

/// Calls [`kube::core::Status::is_conflict`] on a status with this code and reason.
/// It goes by the reason alone: `Conflict` is one of the reasons it knows, so the
/// code is never looked at.
#[verifier::external_body]
fn status_is_conflict(code: u16, reason: &str) -> (conflict: bool)
    ensures
        conflict == (reason@ == "Conflict"@),
{
    let status = kube::core::Status { code, reason: reason.to_owned(), ..Default::default() };
    status.is_conflict()
}

/// The object that a request was about is not there.
pub open spec fn tells_missing(error: KubeFailure) -> bool {
    match error.kind {
        KubeFailureKind::Api { code, reason } => reason@ == "NotFound"@,
        _ => false,
    }
}

/// The object that a request was about is not there.
pub fn is_not_found(error: &KubeFailure) -> (missing: bool)
    ensures
        missing == tells_missing(*error),
{
    match &error.kind {
        KubeFailureKind::Api { code, reason } => status_is_not_found(*code, reason.as_str()),
        _ => false,
    }
}

/// Trying a failed request again may help.
pub open spec fn passing_failure(kind: KubeFailureKind) -> bool {
    match kind {
        KubeFailureKind::Api { code, reason } => reason@ == "Conflict"@ || code == 429 || 500 <= code
            <= 599,
        KubeFailureKind::Connection => true,
        _ => false,
    }
}

fn is_transient_kube_error(error: &KubeFailure) -> (passing: bool)
    ensures
        passing == passing_failure(error.kind),
{
    match &error.kind {
        KubeFailureKind::Api { code, reason } => status_is_conflict(*code, reason.as_str())
            || *code == 429 || (500 <= *code && *code <= 599),
        KubeFailureKind::Connection => true,
        _ => false,
    }
}

/// What a failed read means.
pub open spec fn read_failure(error: KubeFailure) -> ClientErrorView {
    if passing_failure(error.kind) {
        materializer::transient(error.message@)
    } else {
        materializer::permanent(error.message@)
    }
}

/// What a failed read means.
pub fn kube_error(error: &KubeFailure) -> (meaning: KubernetesClientError)
    ensures
        meaning@ == read_failure(*error),
{
    if is_transient_kube_error(error) {
        KubernetesClientError::transient(error.message.as_str())
    } else {
        KubernetesClientError::new(error.message.as_str())
    }
}

/// What a failed change means: the cluster refused it, it was never sent, or
/// nobody knows.
pub open spec fn change_failure(error: KubeFailure) -> ClientErrorView {
    match error.kind {
        KubeFailureKind::Api { code, reason } if code < 500 => read_failure(error),
        KubeFailureKind::Request => materializer::permanent(error.message@),
        _ => materializer::uncertain(error.message@),
    }
}

/// What a failed change means.
pub fn mutation_error(error: &KubeFailure) -> (meaning: KubernetesClientError)
    ensures
        meaning@ == change_failure(*error),
{
    match &error.kind {
        KubeFailureKind::Api { code, .. } => {
            if *code < 500 {
                kube_error(error)
            } else {
                KubernetesClientError::uncertain(error.message.as_str())
            }
        },
        KubeFailureKind::Request => KubernetesClientError::new(error.message.as_str()),
        _ => KubernetesClientError::uncertain(error.message.as_str()),
    }
}

/// A failed change is called permanent or transient only where the cluster
/// refused it or it was never sent: a lost answer always leaves the outcome open.
pub proof fn law_lost_answers_stay_open(error: KubeFailure)
    ensures
        change_failure(error).kind != materializer::ClientErrorKind::Uncertain <==> (
        match error.kind {
            KubeFailureKind::Api { code, reason } => code < 500,
            KubeFailureKind::Request => true,
            _ => false,
        }),
{
}

/// What a failed delete means: an object that is not there needs no delete.
pub open spec fn delete_failure(error: KubeFailure) -> Result<(), ClientErrorView> {
    if tells_missing(error) {
        Ok(())
    } else {
        Err(change_failure(error))
    }
}

/// What a failed delete means.
pub fn delete_outcome(error: &KubeFailure) -> (result: Result<(), KubernetesClientError>)
    ensures
        materializer::plain_answer(result) == delete_failure(*error),
{
    if is_not_found(error) {
        Ok(())
    } else {
        Err(mutation_error(error))
    }
}

// ---------------------------------------------------------------------------
// Changes under a condition
// ---------------------------------------------------------------------------
/// An identity that a change can be tied to.
pub open spec fn identity_verdict(identity: LiveObjectIdentity) -> Result<(), ClientErrorView> {
    if identity.uid@.len() == 0 || identity.resource_version@.len() == 0 {
        Err(
            materializer::permanent("conditional mutation requires UID and resourceVersion"@),
        )
    } else {
        Ok(())
    }
}

/// Checks that a change can be tied to an identity.
pub fn validate_identity(identity: &LiveObjectIdentity) -> (result: Result<
    (),
    KubernetesClientError,
>)
    ensures
        materializer::plain_answer(result) == identity_verdict(*identity),
{
    if identity.uid.as_str().is_empty() || identity.resource_version.as_str().is_empty() {
        return Err(
            KubernetesClientError::new("conditional mutation requires UID and resourceVersion"),
        );
    }
    Ok(())
}

/// A document that the cluster applies only to the very version of the object.
pub open spec fn conditioned(document: JsonView, identity: LiveObjectIdentity) -> JsonView {
    let members = json::members_of(Some(document));
    let metadata = json::members_of(string_map::entry_of(members, "metadata"@));
    let tied = serialize::put(
        serialize::put(metadata, "uid"@, JsonView::Text(identity.uid@)),
        "resourceVersion"@,
        JsonView::Text(identity.resource_version@),
    );
    JsonView::Object(serialize::put(members, "metadata"@, JsonView::Object(tied)))
}

/// The document of an object, tied to the very version that is there.
pub fn conditional_body(object: &KubernetesObject, identity: &LiveObjectIdentity) -> (result: Result<
    Json,
    KubernetesClientError,
>)
    requires
        serialize::serializable(object@),
    ensures
        match result {
            Ok(body) => identity_verdict(*identity) is Ok && body@ == conditioned(
                serialize::document_of(object@),
                *identity,
            ),
            Err(error) => identity_verdict(*identity) == Err::<(), ClientErrorView>(error@),
        },
{
    validate_identity(identity)?;
    let document = object.to_kubernetes_json();
    let mut members = copied_members(Some(&document));
    let mut metadata = copied_members(members.get("metadata"));
    metadata.insert("uid".to_owned(), Json::text(identity.uid.clone()));
    metadata.insert(
        "resourceVersion".to_owned(),
        Json::text(identity.resource_version.clone()),
    );
    members.insert("metadata".to_owned(), Json::object(metadata));
    Ok(Json::object(members))
}

/// A volume may be deleted: it is the one that was inspected, and its bytes are
/// kept.
pub open spec fn volume_cleanup_verdict(
    uid: Option<Seq<char>>,
    resource_version: Option<Seq<char>>,
    reclaim_policy: Option<Seq<char>>,
    precondition: LiveObjectIdentity,
) -> Result<(), ClientErrorView> {
    if uid != Some(precondition.uid@) || resource_version != Some(
        precondition.resource_version@,
    ) {
        Err(materializer::transient("PV changed since ownership/retention inspection"@))
    } else if reclaim_policy != Some("Retain"@) {
        Err(
            materializer::permanent(
                "managed static PV requires Retain before automatic cleanup; operator correction required"@,
            ),
        )
    } else {
        Ok(())
    }
}

fn holds(value: &Option<String>, content: &str) -> (same: bool)
    ensures
        same == (manifest::optional_view(*value) == Some(content@)),
{
    match value {
        Some(value) => same_text(value.as_str(), content),
        None => false,
    }
}

/// Checks that a volume may be deleted.
pub fn validate_volume_cleanup(
    uid: &Option<String>,
    resource_version: &Option<String>,
    reclaim_policy: &Option<String>,
    precondition: &LiveObjectIdentity,
) -> (result: Result<(), KubernetesClientError>)
    ensures
        materializer::plain_answer(result) == volume_cleanup_verdict(
            manifest::optional_view(*uid),
            manifest::optional_view(*resource_version),
            manifest::optional_view(*reclaim_policy),
            *precondition,
        ),
{
    if !holds(uid, precondition.uid.as_str()) || !holds(
        resource_version,
        precondition.resource_version.as_str(),
    ) {
        return Err(
            KubernetesClientError::transient("PV changed since ownership/retention inspection"),
        );
    }
    if !holds(reclaim_policy, "Retain") {
        return Err(
            KubernetesClientError::new(
                "managed static PV requires Retain before automatic cleanup; operator correction required",
            ),
        );
    }
    Ok(())
}

/// What is read of an object, once its identity is known to be there.
pub fn live_metadata(
    uid: Option<String>,
    resource_version: Option<String>,
    labels: StringMap<String>,
    annotations: StringMap<String>,
    deleting: bool,
    finalizers: Vec<String>,
    reclaim_policy: Option<String>,
) -> (result: Result<LiveObjectMetadata, KubernetesClientError>)
    ensures
        match result {
            Ok(live) => {
                &&& uid == Some(live.identity.uid)
                &&& resource_version == Some(live.identity.resource_version)
                &&& live.labels == labels
                &&& live.annotations == annotations
                &&& live.deleting == deleting
                &&& live.finalizers == finalizers
                &&& live.persistent_volume_reclaim_policy == reclaim_policy
            },
            Err(error) => if uid is None {
                error@ == materializer::permanent("live Kubernetes object has no UID"@)
            } else {
                resource_version is None && error@ == materializer::permanent(
                    "live Kubernetes object has no resourceVersion"@,
                )
            },
        },
{
    match uid {
        None => Err(KubernetesClientError::new("live Kubernetes object has no UID")),
        Some(uid) => match resource_version {
            None => Err(
                KubernetesClientError::new("live Kubernetes object has no resourceVersion"),
            ),
            Some(resource_version) => Ok(
                LiveObjectMetadata {
                    identity: LiveObjectIdentity { uid, resource_version },
                    labels,
                    annotations,
                    deleting,
                    finalizers,
                    persistent_volume_reclaim_policy: reclaim_policy,
                },
            ),
        },
    }
}

// ---------------------------------------------------------------------------
// Before objects are removed
// ---------------------------------------------------------------------------
/// Some recorded object is a volume of a name.
pub open spec fn records_volume(objects: Seq<RenderedObjectRef>, name: Seq<char>) -> bool {
    exists|i: int|
        0 <= i < objects.len() && (#[trigger] objects[i]).kind@ == "PersistentVolume"@
            && objects[i].name@ == name && objects[i].namespace@.len() == 0
}

/// The volume that a claim is bound to must be named and recorded.
pub open spec fn binding_outcome(
    volume_name: Option<Seq<char>>,
    objects: Seq<RenderedObjectRef>,
) -> Result<Seq<char>, ClientErrorView> {
    match volume_name {
        Some(name) if name.len() > 0 => if records_volume(objects, name) {
            Ok(name)
        } else {
            Err(
                materializer::permanent(
                    "PVC binds a PV outside recorded inventory; automatic cleanup refused"@,
                ),
            )
        },
        _ => Err(
            materializer::permanent(
                "PVC has no proven static volume binding; automatic cleanup refused"@,
            ),
        ),
    }
}

/// Finds the recorded volume that a claim is bound to.
pub fn bound_volume(volume_name: &Option<String>, objects: &Vec<RenderedObjectRef>) -> (result: Result<
    String,
    KubernetesClientError,
>)
    ensures
        materializer::answer(result) == binding_outcome(
            manifest::optional_view(*volume_name),
            objects@,
        ),
{
    if let Some(name) = volume_name {
        if !name.as_str().is_empty() {
            let mut at: usize = 0;
            while at < objects.len()
                invariant
                    at <= objects.len(),
                    *volume_name == Some(*name),
                    name@.len() > 0,
                    forall|i: int|
                        0 <= i < at ==> !((#[trigger] objects@[i]).kind@ == "PersistentVolume"@
                            && objects@[i].name@ == name@ && objects@[i].namespace@.len() == 0),
                decreases objects.len() - at,
            {
                if same_text(objects[at].kind.as_str(), "PersistentVolume") && same_text(
                    objects[at].name.as_str(),
                    name.as_str(),
                ) && objects[at].namespace.as_str().is_empty() {
                    assert(records_volume(objects@, name@));
                    return Ok(name.clone());
                }
                at = at + 1;
            }
            return Err(
                KubernetesClientError::new(
                    "PVC binds a PV outside recorded inventory; automatic cleanup refused",
                ),
            );
        }
    }
    Err(
        KubernetesClientError::new(
            "PVC has no proven static volume binding; automatic cleanup refused",
        ),
    )
}

/// The volume behind a claim keeps its bytes.
pub open spec fn backing_verdict(reclaim_policy: Option<Seq<char>>) -> Result<(), ClientErrorView> {
    if reclaim_policy == Some("Retain"@) {
        Ok(())
    } else {
        Err(
            materializer::permanent(
                "PVC backing PV requires Retain before any automatic cleanup"@,
            ),
        )
    }
}

/// Checks that the volume behind a claim keeps its bytes.
pub fn validate_backing_volume(reclaim_policy: &Option<String>) -> (result: Result<
    (),
    KubernetesClientError,
>)
    ensures
        materializer::plain_answer(result) == backing_verdict(
            manifest::optional_view(*reclaim_policy),
        ),
{
    if holds(reclaim_policy, "Retain") {
        Ok(())
    } else {
        Err(
            KubernetesClientError::new(
                "PVC backing PV requires Retain before any automatic cleanup",
            ),
        )
    }
}

/// The namespaces of some objects, in order, each once.
pub open spec fn namespaces_of(objects: Seq<RenderedObjectRef>, count: nat) -> Seq<
    (Seq<char>, bool),
>
    decreases count,
{
    if count == 0 || count > objects.len() {
        Seq::empty()
    } else {
        let before = namespaces_of(objects, (count - 1) as nat);
        let namespace = objects[count - 1].namespace@;
        if namespace.len() == 0 {
            before
        } else {
            string_map::with_entry(before, namespace, true)
        }
    }
}

/// The namespaces in which the pods of an instance may live, in order.
pub fn descendant_namespaces(objects: &Vec<RenderedObjectRef>) -> (namespaces: StringMap<bool>)
    ensures
        namespaces@ == namespaces_of(objects@, objects@.len()),
{
    let mut namespaces: StringMap<bool> = StringMap::new();
    let mut at: usize = 0;
    while at < objects.len()
        invariant
            at <= objects.len(),
            namespaces@ == namespaces_of(objects@, at as nat),
        decreases objects.len() - at,
    {
        let namespace = &objects[at].namespace;
        if !namespace.as_str().is_empty() {
            namespaces.insert(namespace.clone(), true);
        }
        at = at + 1;
    }
    namespaces
}

proof fn lemma_namespaces(objects: Seq<RenderedObjectRef>, count: nat, namespace: Seq<char>)
    requires
        count <= objects.len(),
    ensures
        string_map::entry_of(namespaces_of(objects, count), namespace) is Some <==> exists|i: int|
            0 <= i < count && namespace.len() > 0 && (#[trigger] objects[i]).namespace@
                == namespace,
        string_map::sorted_keys(namespaces_of(objects, count)),
    decreases count,
{
    if count > 0 {
        lemma_namespaces(objects, (count - 1) as nat, namespace);
        let before = namespaces_of(objects, (count - 1) as nat);
        let last = objects[count - 1].namespace@;
        string_map::lemma_entry_of_with_entry(before, last, true, namespace);
        string_map::lemma_with_entry_sorted(before, last, true);
        if string_map::entry_of(namespaces_of(objects, count), namespace) is Some {
            if last == namespace && last.len() > 0 {
                assert(objects[count - 1].namespace@ == namespace);
            } else {
                let i = choose|i: int|
                    0 <= i < count - 1 && namespace.len() > 0 && (#[trigger] objects[i]).namespace@
                        == namespace;
                assert(objects[i].namespace@ == namespace);
            }
        }
    }
}

/// Every namespace that an object stands in is looked at, no other is, and each
/// only once.
pub proof fn law_every_namespace_is_inspected(
    objects: Seq<RenderedObjectRef>,
    namespace: Seq<char>,
)
    ensures
        string_map::entry_of(namespaces_of(objects, objects.len()), namespace) is Some
            <==> exists|i: int|
            0 <= i < objects.len() && namespace.len() > 0 && (#[trigger] objects[i]).namespace@
                == namespace,
        string_map::sorted_keys(namespaces_of(objects, objects.len())),
{
    lemma_namespaces(objects, objects.len(), namespace);
}

/// The selector of everything that belongs to an instance.
pub fn descendant_selector(instance_id: &str) -> (selector: String)
    ensures
        selector@ == LABEL_INSTANCE_ID@ + "="@ + instance_id@,
{
    LABEL_INSTANCE_ID.to_owned().concat("=").concat(instance_id)
}

/// The selector of the slices of a Service.
pub fn slice_selector(service_name: &str) -> (selector: String)
    ensures
        selector@ == SERVICE_NAME_LABEL@ + "="@ + service_name@,
{
    SERVICE_NAME_LABEL.to_owned().concat("=").concat(service_name)
}

} // verus!
