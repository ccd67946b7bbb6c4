//! The pod of an instance: the application and the sidecar beside it.

use super::checks::{
    self, render_non_empty, validate_dns_label, validate_port, ValuesView,
};
use super::objects::{
    copied_text, Container, ContainerPort, ContainerPortView, ContainerView, EnvVar,
    EnvVarSource, EnvVarSourceView, EnvVarView, HttpReadinessProbe, HttpReadinessProbeView,
    PersistentVolumeClaimVolumeSource, PersistentVolumeClaimVolumeSourceView, PodVolume,
    PodVolumeView, SecretKeyRef, SecretKeyRefView, ServicePort, ServicePortView, VolumeMount,
    VolumeMountView,
};
use super::readiness::{self, readiness_port};
use super::template::{
    self, ContainerPortTemplate, ContainerTemplate, EnvVarTemplate, ManifestTemplate,
    ServicePortTemplate, ServiceTemplate, SidecarTemplate,
};
use super::volume::{RenderedVolume, RenderedVolumeView};
use super::{
    field_error, ManifestRenderError, Outcome, RenderErrorView, RenderManifestOptions,
};
use crate::instance::{InstanceRecord, InstanceValues, ResolvedSleepPolicy};
use crate::text::{self, decimal_text, same_text};
use vstd::prelude::*;
use vstd::string::*;

verus! {

/// The environment variable that carries the certificates a sidecar trusts.
pub const CONTROL_PLANE_TLS_CA_PEM_ENV: &'static str = "SLEEPYPODS_CONTROL_PLANE_TLS_CA_PEM";

/// The key of the sidecar's token in its Secret.
pub const SIDECAR_TOKEN_SECRET_KEY: &'static str = "token";

// ---------------------------------------------------------------------------
// The sidecar's settings
// ---------------------------------------------------------------------------
/// What the templates settle about a sidecar.
#[derive(Clone, Debug, PartialEq, Eq)]
pub struct SidecarRenderConfig {
    pub listen_port: u16,
    pub proxy_port_name: Option<String>,
    pub app_port: u16,
    pub readiness_port: u16,
    pub mode: Option<String>,
}

#[verifier::ext_equal]
pub struct SidecarRenderConfigView {
    pub listen_port: u16,
    pub proxy_port_name: Option<Seq<char>>,
    pub app_port: u16,
    pub readiness_port: u16,
    pub mode: Option<Seq<char>>,
}

impl View for SidecarRenderConfig {
    type V = SidecarRenderConfigView;

    open spec fn view(&self) -> SidecarRenderConfigView {
        SidecarRenderConfigView {
            listen_port: self.listen_port,
            proxy_port_name: super::optional_view(self.proxy_port_name),
            app_port: self.app_port,
            readiness_port: self.readiness_port,
            mode: super::optional_view(self.mode),
        }
    }
}

/// Some container port has a number.
pub open spec fn declares(ports: Seq<ContainerPortTemplate>, number: u16) -> bool {
    exists|i: int| 0 <= i < ports.len() && (#[trigger] ports[i]).container_port == number
}

/// Some container port has a name.
pub open spec fn declares_name(ports: Seq<ContainerPortTemplate>, name: Seq<char>) -> bool {
    exists|i: int|
        0 <= i < ports.len() && super::optional_view((#[trigger] ports[i]).name) == Some(name)
}

fn declares_port(ports: &Vec<ContainerPortTemplate>, number: u16) -> (found: bool)
    ensures
        found == declares(ports@, number),
{
    let mut index: usize = 0;
    while index < ports.len()
        invariant
            index <= ports.len(),
            forall|i: int| 0 <= i < index ==> (#[trigger] ports@[i]).container_port != number,
        decreases ports.len() - index,
    {
        if ports[index].container_port == number {
            return true;
        }
        index = index + 1;
    }
    false
}

fn declares_port_name(ports: &Vec<ContainerPortTemplate>, name: &str) -> (found: bool)
    ensures
        found == declares_name(ports@, name@),
{
    let mut index: usize = 0;
    while index < ports.len()
        invariant
            index <= ports.len(),
            forall|i: int|
                0 <= i < index ==> super::optional_view((#[trigger] ports@[i]).name) != Some(
                    name@,
                ),
        decreases ports.len() - index,
    {
        if let Some(found) = &ports[index].name {
            if same_text(found.as_str(), name) {
                assert(super::optional_view(ports@[index as int].name) == Some(name@));
                return true;
            }
        }
        assert(super::optional_view(ports@[index as int].name) != Some(name@));
        index = index + 1;
    }
    false
}

/// The port of the application behind the sidecar: the target of the only port
/// of the Service, which the sidecar must not listen on and which the container
/// must declare.
pub open spec fn app_port_outcome(template: ManifestTemplate) -> Outcome<u16> {
    match checks::port_verdict("sidecar.listen_port"@, template.sidecar.listen_port) {
        Err(error) => Err(error),
        Ok(_) => match template.service {
            None => super::invalid_field(
                "service"@,
                "sidecar-routed workloads require a service template"@,
            ),
            Some(service) => if service.ports@.len() != 1 {
                super::invalid_field(
                    "service.ports"@,
                    "exactly one service port is supported for sidecar-routed workloads"@,
                )
            } else {
                let app_port = service.ports@[0].target_port;
                let ports = template.workload.app_container.ports@;
                match checks::port_verdict("service.ports.target_port"@, app_port) {
                    Err(error) => Err(error),
                    Ok(_) => if app_port == template.sidecar.listen_port {
                        super::invalid_field(
                            "service.ports.target_port"@,
                            "original app target port must differ from the sidecar listen port"@,
                        )
                    } else if !declares(ports, 0) && !declares(ports, app_port) {
                        super::invalid_field(
                            "service.ports.target_port"@,
                            "target port "@ + text::decimal(app_port as nat)
                                + " must match an app container port"@,
                        )
                    } else {
                        Ok(app_port)
                    },
                }
            },
        },
    }
}

fn render_app_port(template: &ManifestTemplate) -> (result: Result<u16, ManifestRenderError>)
    ensures
        (match result {
            Ok(port) => Ok(port),
            Err(error) => Err(error@),
        }) == app_port_outcome(*template),
{
    validate_port("sidecar.listen_port", template.sidecar.listen_port)?;
    match &template.service {
        None => Err(
            field_error("service", "sidecar-routed workloads require a service template"),
        ),
        Some(service) => {
            if service.ports.len() != 1 {
                return Err(
                    field_error(
                        "service.ports",
                        "exactly one service port is supported for sidecar-routed workloads",
                    ),
                );
            }
            let app_port: u16 = service.ports[0].target_port;
            validate_port("service.ports.target_port", app_port)?;
            if app_port == template.sidecar.listen_port {
                return Err(
                    field_error(
                        "service.ports.target_port",
                        "original app target port must differ from the sidecar listen port",
                    ),
                );
            }
            let ports = &template.workload.app_container.ports;
            if !declares_port(ports, 0) && !declares_port(ports, app_port) {
                let message = "target port ".to_owned().concat(
                    decimal_text(app_port as u64).as_str(),
                ).concat(" must match an app container port");
                return Err(field_error("service.ports.target_port", message.as_str()));
            }
            Ok(app_port)
        },
    }
}

/// A sidecar proxies HTTP or TCP, where it says which.
pub open spec fn mode_verdict(mode: Option<Seq<char>>) -> Outcome<()> {
    match mode {
        Some(mode) if mode != "http"@ && mode != "tcp"@ => super::invalid_field(
            "sidecar.mode"@,
            "sidecar mode must be either http or tcp"@,
        ),
        _ => Ok(()),
    }
}

/// What the templates settle about a sidecar.
pub open spec fn sidecar_config_outcome(template: ManifestTemplate, values: ValuesView) -> Outcome<
    SidecarRenderConfigView,
> {
    match app_port_outcome(template) {
        Err(error) => Err(error),
        Ok(app_port) => match checks::nonempty_text(
            "sidecar.image"@,
            template.sidecar.image@,
            values,
        ) {
            Err(error) => Err(error),
            Ok(_) => match checks::dns_verdict("sidecar.name"@, template.sidecar.name@) {
                Err(error) => Err(error),
                Ok(_) => match mode_verdict(super::optional_view(template.sidecar.mode)) {
                    Err(error) => Err(error),
                    Ok(_) => match readiness::readiness_port_outcome(template, values) {
                        Err(error) => Err(error),
                        Ok(readiness_port) => Ok(
                            SidecarRenderConfigView {
                                listen_port: template.sidecar.listen_port,
                                proxy_port_name: if declares_name(
                                    template.workload.app_container.ports@,
                                    "sleepypods"@,
                                ) {
                                    None
                                } else {
                                    Some("sleepypods"@)
                                },
                                app_port,
                                readiness_port,
                                mode: super::optional_view(template.sidecar.mode),
                            },
                        ),
                    },
                },
            },
        },
    }
}

/// Settles what the templates say about a sidecar.
pub fn render_sidecar_config(template: &ManifestTemplate, values: &InstanceValues) -> (result: Result<
    SidecarRenderConfig,
    ManifestRenderError,
>)
    ensures
        super::outcome(result) == sidecar_config_outcome(*template, values@),
{
    let app_port: u16 = render_app_port(template)?;
    render_non_empty("sidecar.image", &template.sidecar.image, values)?;
    validate_dns_label("sidecar.name", template.sidecar.name.as_str())?;
    if let Some(mode) = &template.sidecar.mode {
        if !same_text(mode.as_str(), "http") && !same_text(mode.as_str(), "tcp") {
            return Err(field_error("sidecar.mode", "sidecar mode must be either http or tcp"));
        }
    }
    let proxy_port_name = if declares_port_name(
        &template.workload.app_container.ports,
        "sleepypods",
    ) {
        None
    } else {
        Some("sleepypods".to_owned())
    };
    let readiness_port: u16 = readiness_port(template, values)?;
    Ok(
        SidecarRenderConfig {
            listen_port: template.sidecar.listen_port,
            proxy_port_name,
            app_port,
            readiness_port,
            mode: copied_text(&template.sidecar.mode),
        },
    )
}

// ---------------------------------------------------------------------------
// The application
// ---------------------------------------------------------------------------
/// The first `count` ports of a container.
pub open spec fn ports_outcome(ports: Seq<ContainerPortTemplate>, count: nat) -> Outcome<
    Seq<ContainerPortView>,
>
    decreases count,
{
    if count == 0 || count > ports.len() {
        Ok(Seq::empty())
    } else {
        match ports_outcome(ports, (count - 1) as nat) {
            Err(error) => Err(error),
            Ok(before) => {
                let port = ports[count - 1];
                match checks::port_verdict("container.ports.container_port"@, port.container_port) {
                    Err(error) => Err(error),
                    Ok(_) => Ok(
                        before.push(
                            ContainerPortView {
                                name: super::optional_view(port.name),
                                container_port: port.container_port,
                            },
                        ),
                    ),
                }
            },
        }
    }
}

proof fn lemma_port_error_stays(ports: Seq<ContainerPortTemplate>, from: nat, to: nat)
    requires
        from <= to <= ports.len(),
        ports_outcome(ports, from) is Err,
    ensures
        ports_outcome(ports, to) == ports_outcome(ports, from),
    decreases to,
{
    if from < to {
        lemma_port_error_stays(ports, from, (to - 1) as nat);
    }
}

fn render_ports(ports: &Vec<ContainerPortTemplate>) -> (result: Result<
    Vec<ContainerPort>,
    ManifestRenderError,
>)
    ensures
        (match result {
            Ok(rendered) => Ok(super::views(rendered@)),
            Err(error) => Err(error@),
        }) == ports_outcome(ports@, ports@.len()),
{
    let mut rendered: Vec<ContainerPort> = Vec::new();
    let mut at: usize = 0;
    assert(super::views(rendered@) =~= Seq::<ContainerPortView>::empty());
    while at < ports.len()
        invariant
            at <= ports.len(),
            ports_outcome(ports@, at as nat) == Ok::<Seq<ContainerPortView>, RenderErrorView>(
                super::views(rendered@),
            ),
        decreases ports.len() - at,
    {
        if let Err(error) = validate_port(
            "container.ports.container_port",
            ports[at].container_port,
        ) {
            proof {
                lemma_port_error_stays(ports@, (at + 1) as nat, ports@.len());
            }
            return Err(error);
        }
        let port = ContainerPort {
            name: copied_text(&ports[at].name),
            container_port: ports[at].container_port,
        };
        let ghost before = rendered@;
        rendered.push(port);
        assert(super::views(rendered@) =~= super::views(before).push(port@));
        at = at + 1;
    }
    Ok(rendered)
}

/// A variable with a value.
pub open spec fn plain_env(name: Seq<char>, value: Seq<char>) -> EnvVarView {
    EnvVarView { name, value, value_from: None }
}

/// A variable whose value comes from elsewhere.
pub open spec fn sourced_env(name: Seq<char>, source: EnvVarSourceView) -> EnvVarView {
    EnvVarView { name, value: Seq::empty(), value_from: Some(source) }
}

/// The first `count` variables of a container.
pub open spec fn env_outcome(env: Seq<EnvVarTemplate>, count: nat, values: ValuesView) -> Outcome<
    Seq<EnvVarView>,
>
    decreases count,
{
    if count == 0 || count > env.len() {
        Ok(Seq::empty())
    } else {
        match env_outcome(env, (count - 1) as nat, values) {
            Err(error) => Err(error),
            Ok(before) => match template::rendered_text(env[count - 1].value@, values) {
                Err(error) => Err(error),
                Ok(value) => Ok(before.push(plain_env(env[count - 1].name@, value))),
            },
        }
    }
}

proof fn lemma_env_error_stays(env: Seq<EnvVarTemplate>, from: nat, to: nat, values: ValuesView)
    requires
        from <= to <= env.len(),
        env_outcome(env, from, values) is Err,
    ensures
        env_outcome(env, to, values) == env_outcome(env, from, values),
    decreases to,
{
    if from < to {
        lemma_env_error_stays(env, from, (to - 1) as nat, values);
    }
}

fn plain(name: &str, value: String) -> (env: EnvVar)
    ensures
        env@ == plain_env(name@, value@),
{
    EnvVar { name: name.to_owned(), value, value_from: None }
}

fn sourced(name: &str, source: EnvVarSource) -> (env: EnvVar)
    ensures
        env@ == sourced_env(name@, source@),
{
    EnvVar { name: name.to_owned(), value: String::new(), value_from: Some(source) }
}

fn render_env(env: &Vec<EnvVarTemplate>, values: &InstanceValues) -> (result: Result<
    Vec<EnvVar>,
    ManifestRenderError,
>)
    ensures
        (match result {
            Ok(rendered) => Ok(super::views(rendered@)),
            Err(error) => Err(error@),
        }) == env_outcome(env@, env@.len(), values@),
{
    let mut rendered: Vec<EnvVar> = Vec::new();
    let mut at: usize = 0;
    assert(super::views(rendered@) =~= Seq::<EnvVarView>::empty());
    while at < env.len()
        invariant
            at <= env.len(),
            env_outcome(env@, at as nat, values@) == Ok::<Seq<EnvVarView>, RenderErrorView>(
                super::views(rendered@),
            ),
        decreases env.len() - at,
    {
        match env[at].value.render(values) {
            Err(error) => {
                proof {
                    lemma_env_error_stays(env@, (at + 1) as nat, env@.len(), values@);
                }
                return Err(error);
            },
            Ok(value) => {
                let variable = plain(env[at].name.as_str(), value);
                let ghost before = rendered@;
                rendered.push(variable);
                assert(super::views(rendered@) =~= super::views(before).push(variable@));
            },
        }
        at = at + 1;
    }
    Ok(rendered)
}

/// Where the volumes of an instance stand in its container.
pub open spec fn mounts_of(volumes: Seq<RenderedVolumeView>) -> Seq<VolumeMountView> {
    Seq::new(
        volumes.len(),
        |i: int|
            VolumeMountView { name: volumes[i].volume_name, mount_path: volumes[i].mount_path },
    )
}

fn volume_mounts(volumes: &Vec<RenderedVolume>) -> (mounts: Vec<VolumeMount>)
    ensures
        super::views(mounts@) == mounts_of(super::views(volumes@)),
{
    let mut mounts: Vec<VolumeMount> = Vec::new();
    let mut at: usize = 0;
    while at < volumes.len()
        invariant
            at <= volumes.len(),
            mounts@.len() == at,
            forall|i: int|
                0 <= i < at ==> (#[trigger] mounts@[i])@ == (VolumeMountView {
                    name: volumes@[i].volume_name@,
                    mount_path: volumes@[i].mount_path@,
                }),
        decreases volumes.len() - at,
    {
        mounts.push(
            VolumeMount {
                name: volumes[at].volume_name.clone(),
                mount_path: volumes[at].mount_path.clone(),
            },
        );
        at = at + 1;
    }
    assert(super::views(mounts@) =~= mounts_of(super::views(volumes@)));
    mounts
}

/// The container of the application.
pub open spec fn app_container_outcome(
    container: ContainerTemplate,
    values: ValuesView,
    volumes: Seq<RenderedVolumeView>,
) -> Outcome<ContainerView> {
    match checks::dns_verdict("container.name"@, container.name@) {
        Err(error) => Err(error),
        Ok(_) => match checks::nonempty_text("container.image"@, container.image@, values) {
            Err(error) => Err(error),
            Ok(image) => match ports_outcome(container.ports@, container.ports@.len()) {
                Err(error) => Err(error),
                Ok(ports) => match env_outcome(container.env@, container.env@.len(), values) {
                    Err(error) => Err(error),
                    Ok(env) => Ok(
                        ContainerView {
                            name: container.name@,
                            image,
                            ports,
                            env,
                            volume_mounts: mounts_of(volumes),
                            readiness_probe: None,
                        },
                    ),
                },
            },
        },
    }
}

/// Renders the container of the application.
pub fn render_app_container(
    template: &ContainerTemplate,
    values: &InstanceValues,
    volumes: &Vec<RenderedVolume>,
) -> (result: Result<Container, ManifestRenderError>)
    ensures
        super::outcome(result) == app_container_outcome(
            *template,
            values@,
            super::views(volumes@),
        ),
{
    validate_dns_label("container.name", template.name.as_str())?;
    let image = render_non_empty("container.image", &template.image, values)?;
    let ports = render_ports(&template.ports)?;
    let env = render_env(&template.env, values)?;
    Ok(
        Container {
            name: template.name.clone(),
            image,
            ports,
            env,
            volume_mounts: volume_mounts(volumes),
            readiness_probe: None,
        },
    )
}

// ---------------------------------------------------------------------------
// The sidecar
// ---------------------------------------------------------------------------
/// The address on which a listener takes connections from anywhere.
pub open spec fn any_address(port: u16) -> Seq<char> {
    "0.0.0.0:"@ + text::decimal(port as nat)
}

/// Where the sidecar finds the control plane, if it is not told.
pub open spec fn default_endpoint(namespace: Seq<char>) -> Seq<char> {
    "http://sleepypods-control-plane."@ + namespace + ".svc.cluster.local:50051"@
}

/// The model of how a sidecar reaches the control plane.
pub struct OptionsView {
    pub token: Option<Seq<char>>,
    pub endpoint: Option<Seq<char>>,
    pub ca: Option<Seq<char>>,
}

/// The model of how a sidecar reaches the control plane.
pub open spec fn options_view(options: RenderManifestOptions) -> OptionsView {
    OptionsView {
        token: match options.sidecar_control_plane_token {
            Some(token) => Some(token@),
            None => None,
        },
        endpoint: match options.sidecar_control_plane_endpoint {
            Some(endpoint) => Some(endpoint@),
            None => None,
        },
        ca: match options.sidecar_control_plane_ca {
            Some(ca) => Some(ca@),
            None => None,
        },
    }
}

/// The variables that every sidecar gets.
pub open spec fn sidecar_base_env(
    instance: InstanceRecord,
    config: SidecarRenderConfigView,
    namespace: Seq<char>,
    sleep_policy: ResolvedSleepPolicy,
    endpoint: Option<Seq<char>>,
) -> Seq<EnvVarView> {
    seq![
        sourced_env(
            "SLEEPYPODS_POD_UID"@,
            EnvVarSourceView::FieldRef { field_path: "metadata.uid"@ },
        ),
        plain_env("SLEEPYPODS_LISTEN_PORT"@, text::decimal(config.listen_port as nat)),
        plain_env("SLEEPYPODS_SIDECAR_LISTEN_ADDR"@, any_address(config.listen_port)),
        plain_env(
            "SLEEPYPODS_SIDECAR_READINESS_LISTEN_ADDR"@,
            any_address(config.readiness_port),
        ),
        plain_env("SLEEPYPODS_APP_PORT"@, text::decimal(config.app_port as nat)),
        plain_env("SLEEPYPODS_INSTANCE_ID"@, instance.id@),
        plain_env(
            "SLEEPYPODS_INSTANCE_GENERATION"@,
            text::decimal(instance.generation@ as nat),
        ),
        plain_env(
            "SLEEPYPODS_CONTROL_PLANE_ENDPOINT"@,
            match endpoint {
                Some(endpoint) => endpoint,
                None => default_endpoint(namespace),
            },
        ),
        plain_env(
            "SLEEPYPODS_IDLE_TIMEOUT_MS"@,
            text::decimal(sleep_policy.idle_timeout_ms as nat),
        ),
        plain_env(
            "SLEEPYPODS_IDLE_RETRY_BACKOFF_MS"@,
            text::decimal(sleep_policy.idle_retry_backoff_ms as nat),
        ),
        plain_env(
            "SLEEPYPODS_DRAIN_GRACE_TIMEOUT_MS"@,
            text::decimal(sleep_policy.drain_grace_timeout_ms as nat),
        ),
    ]
}

/// The variables of a sidecar: those that every sidecar gets, then the
/// certificates it trusts, its mode and its token, as far as there are any.
pub open spec fn sidecar_env(
    instance: InstanceRecord,
    config: SidecarRenderConfigView,
    namespace: Seq<char>,
    sleep_policy: ResolvedSleepPolicy,
    secret_name: Option<Seq<char>>,
    options: OptionsView,
) -> Seq<EnvVarView> {
    let base = sidecar_base_env(instance, config, namespace, sleep_policy, options.endpoint);
    let trusted = match options.ca {
        Some(ca) => base.push(plain_env(CONTROL_PLANE_TLS_CA_PEM_ENV@, ca)),
        None => base,
    };
    let moded = match config.mode {
        Some(mode) => trusted.push(plain_env("SLEEPYPODS_SIDECAR_MODE"@, mode)),
        None => trusted,
    };
    match secret_name {
        Some(name) => moded.push(
            sourced_env(
                "SLEEPYPODS_CONTROL_PLANE_SIDECAR_TOKEN"@,
                EnvVarSourceView::SecretKeyRef(
                    SecretKeyRefView { name, key: SIDECAR_TOKEN_SECRET_KEY@ },
                ),
            ),
        ),
        None => moded,
    }
}

/// The container of the sidecar.
pub open spec fn sidecar_container_outcome(
    sidecar: SidecarTemplate,
    instance: InstanceRecord,
    config: SidecarRenderConfigView,
    namespace: Seq<char>,
    sleep_policy: ResolvedSleepPolicy,
    secret_name: Option<Seq<char>>,
    options: OptionsView,
) -> Outcome<ContainerView> {
    match checks::nonempty_text("sidecar.image"@, sidecar.image@, instance.values@) {
        Err(error) => Err(error),
        Ok(image) => Ok(
            ContainerView {
                name: sidecar.name@,
                image,
                ports: seq![
                    ContainerPortView {
                        name: config.proxy_port_name,
                        container_port: config.listen_port,
                    },
                    ContainerPortView { name: None, container_port: config.readiness_port },
                ],
                env: sidecar_env(
                    instance,
                    config,
                    namespace,
                    sleep_policy,
                    secret_name,
                    options,
                ),
                volume_mounts: Seq::empty(),
                readiness_probe: Some(
                    HttpReadinessProbeView {
                        path: "/ready"@,
                        port: config.readiness_port,
                        period_seconds: 1,
                        timeout_seconds: 1,
                        failure_threshold: 1,
                    },
                ),
            },
        ),
    }
}

fn any_address_text(port: u16) -> (address: String)
    ensures
        address@ == any_address(port),
{
    "0.0.0.0:".to_owned().concat(decimal_text(port as u64).as_str())
}

fn render_sidecar_base_env(
    instance: &InstanceRecord,
    config: &SidecarRenderConfig,
    namespace: &str,
    sleep_policy: ResolvedSleepPolicy,
    endpoint: Option<&str>,
) -> (env: Vec<EnvVar>)
    ensures
        super::views(env@) == sidecar_base_env(
            *instance,
            config@,
            namespace@,
            sleep_policy,
            match endpoint {
                Some(endpoint) => Some(endpoint@),
                None => None,
            },
        ),
{
    let endpoint_text = match endpoint {
        Some(endpoint) => endpoint.to_owned(),
        None => "http://sleepypods-control-plane.".to_owned().concat(namespace).concat(
            ".svc.cluster.local:50051",
        ),
    };
    let mut env: Vec<EnvVar> = Vec::new();
    env.push(
        sourced(
            "SLEEPYPODS_POD_UID",
            EnvVarSource::FieldRef { field_path: "metadata.uid".to_owned() },
        ),
    );
    env.push(plain("SLEEPYPODS_LISTEN_PORT", decimal_text(config.listen_port as u64)));
    env.push(plain("SLEEPYPODS_SIDECAR_LISTEN_ADDR", any_address_text(config.listen_port)));
    env.push(
        plain(
            "SLEEPYPODS_SIDECAR_READINESS_LISTEN_ADDR",
            any_address_text(config.readiness_port),
        ),
    );
    env.push(plain("SLEEPYPODS_APP_PORT", decimal_text(config.app_port as u64)));
    env.push(plain("SLEEPYPODS_INSTANCE_ID", instance.id.as_str().to_owned()));
    env.push(plain("SLEEPYPODS_INSTANCE_GENERATION", instance.generation.to_text()));
    env.push(plain("SLEEPYPODS_CONTROL_PLANE_ENDPOINT", endpoint_text));
    env.push(plain("SLEEPYPODS_IDLE_TIMEOUT_MS", decimal_text(sleep_policy.idle_timeout_ms)));
    env.push(
        plain(
            "SLEEPYPODS_IDLE_RETRY_BACKOFF_MS",
            decimal_text(sleep_policy.idle_retry_backoff_ms),
        ),
    );
    env.push(
        plain(
            "SLEEPYPODS_DRAIN_GRACE_TIMEOUT_MS",
            decimal_text(sleep_policy.drain_grace_timeout_ms),
        ),
    );
    assert(super::views(env@) =~= sidecar_base_env(
        *instance,
        config@,
        namespace@,
        sleep_policy,
        match endpoint {
            Some(endpoint) => Some(endpoint@),
            None => None,
        },
    ));
    env
}

fn push_env(env: &mut Vec<EnvVar>, variable: EnvVar)
    ensures
        super::views(final(env)@) == super::views(old(env)@).push(variable@),
{
    env.push(variable);
    assert(super::views(env@) =~= super::views(old(env)@).push(variable@));
}

/// Renders the container of the sidecar.
pub fn render_sidecar_container(
    template: &SidecarTemplate,
    instance: &InstanceRecord,
    config: &SidecarRenderConfig,
    namespace: &str,
    sleep_policy: ResolvedSleepPolicy,
    sidecar_token_secret_name: &Option<String>,
    options: RenderManifestOptions<'_>,
) -> (result: Result<Container, ManifestRenderError>)
    ensures
        super::outcome(result) == sidecar_container_outcome(
            *template,
            *instance,
            config@,
            namespace@,
            sleep_policy,
            super::optional_view(*sidecar_token_secret_name),
            options_view(options),
        ),
{
    let mut env = render_sidecar_base_env(
        instance,
        config,
        namespace,
        sleep_policy,
        options.sidecar_control_plane_endpoint,
    );
    if let Some(ca) = options.sidecar_control_plane_ca {
        push_env(&mut env, plain(CONTROL_PLANE_TLS_CA_PEM_ENV, ca.to_owned()));
    }
    if let Some(mode) = &config.mode {
        push_env(&mut env, plain("SLEEPYPODS_SIDECAR_MODE", mode.clone()));
    }
    if let Some(secret_name) = sidecar_token_secret_name {
        push_env(
            &mut env,
            sourced(
                "SLEEPYPODS_CONTROL_PLANE_SIDECAR_TOKEN",
                EnvVarSource::SecretKeyRef(
                    SecretKeyRef {
                        name: secret_name.clone(),
                        key: SIDECAR_TOKEN_SECRET_KEY.to_owned(),
                    },
                ),
            ),
        );
    }
    let image = render_non_empty("sidecar.image", &template.image, &instance.values)?;
    let mut ports: Vec<ContainerPort> = Vec::new();
    ports.push(
        ContainerPort {
            name: copied_text(&config.proxy_port_name),
            container_port: config.listen_port,
        },
    );
    ports.push(ContainerPort { name: None, container_port: config.readiness_port });
    let container = Container {
        name: template.name.clone(),
        image,
        ports,
        env,
        volume_mounts: Vec::new(),
        readiness_probe: Some(
            HttpReadinessProbe {
                path: "/ready".to_owned(),
                port: config.readiness_port,
                period_seconds: 1,
                timeout_seconds: 1,
                failure_threshold: 1,
            },
        ),
    };
    proof {
        assert(container@.ports =~= seq![
            ContainerPortView {
                name: config@.proxy_port_name,
                container_port: config.listen_port,
            },
            ContainerPortView { name: None, container_port: config.readiness_port },
        ]);
        assert(container@.volume_mounts =~= Seq::<VolumeMountView>::empty());
    }
    Ok(container)
}

// ---------------------------------------------------------------------------
// Around the pod
// ---------------------------------------------------------------------------
/// The first `count` ports of the Service, each leading to the sidecar.
pub open spec fn service_ports_outcome(
    ports: Seq<ServicePortTemplate>,
    count: nat,
    listen_port: u16,
) -> Outcome<Seq<ServicePortView>>
    decreases count,
{
    if count == 0 || count > ports.len() {
        Ok(Seq::empty())
    } else {
        match service_ports_outcome(ports, (count - 1) as nat, listen_port) {
            Err(error) => Err(error),
            Ok(before) => {
                let port = ports[count - 1];
                match checks::port_verdict("service.ports.port"@, port.port) {
                    Err(error) => Err(error),
                    Ok(_) => match checks::port_verdict(
                        "service.ports.target_port"@,
                        port.target_port,
                    ) {
                        Err(error) => Err(error),
                        Ok(_) => Ok(
                            before.push(
                                ServicePortView {
                                    name: super::optional_view(port.name),
                                    port: port.port,
                                    target_port: listen_port,
                                },
                            ),
                        ),
                    },
                }
            },
        }
    }
}

proof fn lemma_service_port_error_stays(
    ports: Seq<ServicePortTemplate>,
    from: nat,
    to: nat,
    listen_port: u16,
)
    requires
        from <= to <= ports.len(),
        service_ports_outcome(ports, from, listen_port) is Err,
    ensures
        service_ports_outcome(ports, to, listen_port) == service_ports_outcome(
            ports,
            from,
            listen_port,
        ),
    decreases to,
{
    if from < to {
        lemma_service_port_error_stays(ports, from, (to - 1) as nat, listen_port);
    }
}

/// Renders the ports of the Service.
pub fn render_service_ports(template: &ServiceTemplate, sidecar_listen_port: u16) -> (result: Result<
    Vec<ServicePort>,
    ManifestRenderError,
>)
    ensures
        (match result {
            Ok(rendered) => Ok(super::views(rendered@)),
            Err(error) => Err(error@),
        }) == service_ports_outcome(template.ports@, template.ports@.len(), sidecar_listen_port),
{
    let ports = &template.ports;
    let mut rendered: Vec<ServicePort> = Vec::new();
    let mut at: usize = 0;
    assert(super::views(rendered@) =~= Seq::<ServicePortView>::empty());
    while at < ports.len()
        invariant
            at <= ports.len(),
            ports@ == template.ports@,
            service_ports_outcome(ports@, at as nat, sidecar_listen_port) == Ok::<
                Seq<ServicePortView>,
                RenderErrorView,
            >(super::views(rendered@)),
        decreases ports.len() - at,
    {
        let port = &ports[at];
        if let Err(error) = validate_port("service.ports.port", port.port) {
            proof {
                lemma_service_port_error_stays(
                    ports@,
                    (at + 1) as nat,
                    ports@.len(),
                    sidecar_listen_port,
                );
            }
            return Err(error);
        }
        if let Err(error) = validate_port("service.ports.target_port", port.target_port) {
            proof {
                lemma_service_port_error_stays(
                    ports@,
                    (at + 1) as nat,
                    ports@.len(),
                    sidecar_listen_port,
                );
            }
            return Err(error);
        }
        let leading = ServicePort {
            name: copied_text(&port.name),
            port: port.port,
            target_port: sidecar_listen_port,
        };
        let ghost before = rendered@;
        rendered.push(leading);
        assert(super::views(rendered@) =~= super::views(before).push(leading@));
        at = at + 1;
    }
    Ok(rendered)
}

/// The volumes of the pod: the claims of the instance's volumes.
pub open spec fn pod_volumes_of(volumes: Seq<RenderedVolumeView>) -> Seq<PodVolumeView> {
    Seq::new(
        volumes.len(),
        |i: int|
            PodVolumeView {
                name: volumes[i].volume_name,
                persistent_volume_claim: PersistentVolumeClaimVolumeSourceView {
                    claim_name: volumes[i].pvc_name,
                },
            },
    )
}

/// The volumes of the pod.
pub fn pod_volumes(volumes: &Vec<RenderedVolume>) -> (claimed: Vec<PodVolume>)
    ensures
        super::views(claimed@) == pod_volumes_of(super::views(volumes@)),
{
    let mut claimed: Vec<PodVolume> = Vec::new();
    let mut at: usize = 0;
    while at < volumes.len()
        invariant
            at <= volumes.len(),
            claimed@.len() == at,
            forall|i: int|
                0 <= i < at ==> (#[trigger] claimed@[i])@ == (PodVolumeView {
                    name: volumes@[i].volume_name@,
                    persistent_volume_claim: PersistentVolumeClaimVolumeSourceView {
                        claim_name: volumes@[i].pvc_name@,
                    },
                }),
        decreases volumes.len() - at,
    {
        claimed.push(
            PodVolume {
                name: volumes[at].volume_name.clone(),
                persistent_volume_claim: PersistentVolumeClaimVolumeSource {
                    claim_name: volumes[at].pvc_name.clone(),
                },
            },
        );
        at = at + 1;
    }
    assert(super::views(claimed@) =~= pod_volumes_of(super::views(volumes@)));
    claimed
}

} // verus!
