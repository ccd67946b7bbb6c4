//! What the materializer knows of the cluster's answers.

use crate::auth::BearerToken;
use crate::manifest::{self, RenderManifestOptions};
use crate::manifest::objects::{self, KubernetesObject, RenderedManifest};
use crate::manifest::pod::{self, OptionsView};
use crate::materialization::RenderedObjectRef;
use vstd::prelude::*;

verus! {

/// What an error of the cluster says about trying again.
#[derive(Clone, Copy, Debug, PartialEq, Eq, Structural)]
pub enum ClientErrorKind {
    /// Trying again changes nothing.
    Permanent,
    /// Nothing happened, and trying again may help.
    Transient,
    /// Whether anything happened is unknown.
    Uncertain,
}

/// An error of the cluster.
#[derive(Clone, Debug, PartialEq, Eq)]
pub struct KubernetesClientError {
    kind: ClientErrorKind,
    message: String,
}

/// The mathematical model of a [`KubernetesClientError`].
#[verifier::ext_equal]
pub struct ClientErrorView {
    pub kind: ClientErrorKind,
    pub message: Seq<char>,
}

impl View for KubernetesClientError {
    type V = ClientErrorView;

    closed spec fn view(&self) -> ClientErrorView {
        ClientErrorView { kind: self.kind, message: self.message@ }
    }
}

/// An error that stays.
pub open spec fn permanent(message: Seq<char>) -> ClientErrorView {
    ClientErrorView { kind: ClientErrorKind::Permanent, message }
}

/// An error that may pass.
pub open spec fn transient(message: Seq<char>) -> ClientErrorView {
    ClientErrorView { kind: ClientErrorKind::Transient, message }
}

/// An error that leaves the outcome open.
pub open spec fn uncertain(message: Seq<char>) -> ClientErrorView {
    ClientErrorView { kind: ClientErrorKind::Uncertain, message }
}

impl KubernetesClientError {
    /// An error that stays.
    pub fn new(message: &str) -> (error: KubernetesClientError)
        ensures
            error@ == permanent(message@),
    {
        KubernetesClientError { kind: ClientErrorKind::Permanent, message: message.to_owned() }
    }

    /// An error that may pass.
    pub fn transient(message: &str) -> (error: KubernetesClientError)
        ensures
            error@ == transient(message@),
    {
        KubernetesClientError { kind: ClientErrorKind::Transient, message: message.to_owned() }
    }

    /// An error that leaves the outcome open.
    pub fn uncertain(message: &str) -> (error: KubernetesClientError)
        ensures
            error@ == uncertain(message@),
    {
        KubernetesClientError { kind: ClientErrorKind::Uncertain, message: message.to_owned() }
    }

    /// What happened.
    pub fn message(&self) -> (message: &str)
        ensures
            message@ == self@.message,
    {
        self.message.as_str()
    }

    /// Trying again may help.
    pub fn is_retryable(&self) -> (retryable: bool)
        ensures
            retryable == (self@.kind == ClientErrorKind::Transient),
    {
        self.kind == ClientErrorKind::Transient
    }

    /// Whether anything happened is unknown.
    pub fn outcome_uncertain(&self) -> (uncertain: bool)
        ensures
            uncertain == (self@.kind == ClientErrorKind::Uncertain),
    {
        self.kind == ClientErrorKind::Uncertain
    }
}

/// The model of an answer of the cluster.
pub open spec fn answer<T: View>(result: Result<T, KubernetesClientError>) -> Result<
    T::V,
    ClientErrorView,
> {
    match result {
        Ok(value) => Ok(value@),
        Err(error) => Err(error@),
    }
}

/// The model of an answer without a value.
pub open spec fn plain_answer<T>(result: Result<T, KubernetesClientError>) -> Result<
    T,
    ClientErrorView,
> {
    match result {
        Ok(value) => Ok(value),
        Err(error) => Err(error@),
    }
}

/// A reference leads to an object.
pub open spec fn refers_to(
    reference: RenderedObjectRef,
    object: objects::KubernetesObjectView,
) -> bool {
    &&& reference.api_version@ == objects::api_version_of(object)
    &&& reference.kind@ == objects::kind_of(object)
    &&& reference.namespace@ == objects::namespace_of(object)
    &&& reference.name@ == objects::metadata_of(object).name
}

/// The reference by which an object is found again.
pub fn rendered_object_ref(object: &KubernetesObject) -> (reference: RenderedObjectRef)
    ensures
        refers_to(reference, object@),
{
    RenderedObjectRef {
        api_version: object.api_version().to_owned(),
        kind: object.kind().to_owned(),
        namespace: object.namespace().to_owned(),
        name: object.name().to_owned(),
    }
}

/// The reference of every object of a manifest, in the order in which they are
/// applied.
pub fn rendered_object_refs(manifest: &RenderedManifest) -> (references: Vec<RenderedObjectRef>)
    ensures
        references@.len() == manifest.objects@.len(),
        forall|i: int|
            0 <= i < references@.len() ==> refers_to(
                #[trigger] references@[i],
                manifest.objects@[i].object@,
            ),
{
    let mut references: Vec<RenderedObjectRef> = Vec::new();
    let mut at: usize = 0;
    while at < manifest.objects.len()
        invariant
            at <= manifest.objects@.len(),
            references@.len() == at,
            forall|i: int|
                0 <= i < at ==> refers_to(
                    #[trigger] references@[i],
                    manifest.objects@[i].object@,
                ),
        decreases manifest.objects@.len() - at,
    {
        references.push(rendered_object_ref(&manifest.objects[at].object));
        at = at + 1;
    }
    references
}

/// Renders workloads and puts them into a cluster through a client.
#[derive(Clone, Debug, PartialEq, Eq)]
pub struct KubernetesMaterializer<C> {
    client: C,
    sidecar_control_plane_token: Option<BearerToken>,
    sidecar_control_plane_endpoint: Option<String>,
    sidecar_control_plane_ca_pem: Option<String>,
}

impl<C> KubernetesMaterializer<C> {
    /// What it reaches the cluster through.
    pub closed spec fn client(self) -> C {
        self.client
    }

    /// The token that sidecars get.
    pub closed spec fn token(self) -> Option<Seq<char>> {
        manifest::optional_view(self.sidecar_control_plane_token)
    }

    /// The address and the certificate authority that sidecars get.
    pub closed spec fn transport(self) -> (Option<Seq<char>>, Option<Seq<char>>) {
        (
            manifest::optional_view(self.sidecar_control_plane_endpoint),
            manifest::optional_view(self.sidecar_control_plane_ca_pem),
        )
    }

    /// A materializer that reaches the cluster through a client. Sidecars get
    /// neither a token nor an address.
    pub fn new(client: C) -> (materializer: KubernetesMaterializer<C>)
        ensures
            materializer.client() == client,
            materializer.token() is None,
            materializer.transport() == (None::<Seq<char>>, None::<Seq<char>>),
    {
        KubernetesMaterializer {
            client,
            sidecar_control_plane_token: None,
            sidecar_control_plane_endpoint: None,
            sidecar_control_plane_ca_pem: None,
        }
    }

    /// The same, with the token that sidecars get.
    pub fn with_sidecar_control_plane_token(self, token: Option<BearerToken>) -> (materializer:
        KubernetesMaterializer<C>)
        ensures
            materializer.client() == self.client(),
            materializer.token() == manifest::optional_view(token),
            materializer.transport() == self.transport(),
    {
        KubernetesMaterializer {
            client: self.client,
            sidecar_control_plane_token: token,
            sidecar_control_plane_endpoint: self.sidecar_control_plane_endpoint,
            sidecar_control_plane_ca_pem: self.sidecar_control_plane_ca_pem,
        }
    }

    /// The same, with the address and the certificate authority that sidecars get.
    pub fn with_sidecar_control_plane_transport(
        self,
        endpoint: Option<String>,
        ca_pem: Option<String>,
    ) -> (materializer: KubernetesMaterializer<C>)
        ensures
            materializer.client() == self.client(),
            materializer.token() == self.token(),
            materializer.transport() == (
                manifest::optional_view(endpoint),
                manifest::optional_view(ca_pem),
            ),
    {
        KubernetesMaterializer {
            client: self.client,
            sidecar_control_plane_token: self.sidecar_control_plane_token,
            sidecar_control_plane_endpoint: endpoint,
            sidecar_control_plane_ca_pem: ca_pem,
        }
    }

    /// The token that sidecars get.
    pub fn sidecar_control_plane_token(&self) -> (token: Option<&BearerToken>)
        ensures
            match token {
                Some(token) => self.token() == Some(token@),
                None => self.token() is None,
            },
    {
        self.sidecar_control_plane_token.as_ref()
    }

    /// What is rendered into every sidecar about the control plane.
    pub fn render_options(&self) -> (options: RenderManifestOptions<'_>)
        ensures
            pod::options_view(options) == (OptionsView {
                token: self.token(),
                endpoint: self.transport().0,
                ca: self.transport().1,
            }),
    {
        RenderManifestOptions {
            sidecar_control_plane_token: self.sidecar_control_plane_token.as_ref(),
            sidecar_control_plane_endpoint: match &self.sidecar_control_plane_endpoint {
                Some(endpoint) => Some(endpoint.as_str()),
                None => None,
            },
            sidecar_control_plane_ca: match &self.sidecar_control_plane_ca_pem {
                Some(ca_pem) => Some(ca_pem.as_str()),
                None => None,
            },
        }
    }
}

} // verus!
