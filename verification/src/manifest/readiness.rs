//! The port on which a sidecar tells whether it is ready.

use super::checks::ValuesView;
use super::template::{self, ContainerPortTemplate, EnvVarTemplate, ManifestTemplate};
use super::{field_error, ManifestRenderError, Outcome, RenderErrorView};
use crate::instance::InstanceValues;
use crate::net::{self, parse_socket};
use crate::text::same_text;
use vstd::prelude::*;
use vstd::string::*;

verus! {

/// A variable that names the address of a metrics listener in the pod.
pub open spec fn metrics_variable(name: Seq<char>) -> bool {
    ||| name == "SLEEPYPODS_SIDECAR_METRICS_LISTEN_ADDR"@
    ||| name == "SLEEPYPODS_FRONTLINE_METRICS_LISTEN_ADDR"@
    ||| name == "SLEEPYPODS_CONTROL_PLANE_METRICS_LISTEN_ADDR"@
}

/// The ports that the containers declare and on which the sidecar listens.
pub open spec fn declared_ports(ports: Seq<ContainerPortTemplate>, listen_port: u16) -> Set<u16> {
    Set::new(
        |port: u16|
            port == listen_port || exists|i: int|
                0 <= i < ports.len() && (#[trigger] ports[i]).container_port == port,
    )
}

/// `occupied` with the ports of the metrics listeners that the first `count`
/// variables name. A variable that renders to nothing names none.
pub open spec fn occupied_outcome(
    occupied: Set<u16>,
    env: Seq<EnvVarTemplate>,
    count: nat,
    values: ValuesView,
) -> Outcome<Set<u16>>
    decreases count,
{
    if count == 0 || count > env.len() {
        Ok(occupied)
    } else {
        match occupied_outcome(occupied, env, (count - 1) as nat, values) {
            Err(error) => Err(error),
            Ok(before) => if !metrics_variable(env[count - 1].name@) {
                Ok(before)
            } else {
                match template::rendered_text(env[count - 1].value@, values) {
                    Err(error) => Err(error),
                    Ok(address) => if address.len() == 0 {
                        Ok(before)
                    } else {
                        match net::parsed_socket(address) {
                            Some(socket) => Ok(before.insert(socket.port)),
                            None => super::invalid_field(
                                "container.env.metrics_listen_addr"@,
                                env[count - 1].name@ + " must be a socket address"@,
                            ),
                        }
                    },
                }
            },
        }
    }
}

/// The first port from `from` up to, but not at, `end` that nothing occupies.
pub open spec fn free_port(occupied: Set<u16>, from: int, end: int) -> Option<u16>
    decreases end - from,
{
    if from >= end {
        None
    } else if !occupied.contains(from as u16) {
        Some(from as u16)
    } else {
        free_port(occupied, from + 1, end)
    }
}

/// The port on which the sidecar tells whether it is ready: the first free one
/// from 15001 up, then from 1024 up.
pub open spec fn readiness_port_outcome(template: ManifestTemplate, values: ValuesView) -> Outcome<
    u16,
> {
    let container = template.workload.app_container;
    let declared = declared_ports(container.ports@, template.sidecar.listen_port);
    match occupied_outcome(declared, container.env@, container.env@.len(), values) {
        Err(error) => Err(error),
        Ok(occupied) => match free_port(occupied, 15001, 65536) {
            Some(port) => Ok(port),
            None => match free_port(occupied, 1024, 15001) {
                Some(port) => Ok(port),
                None => super::invalid_field(
                    "sidecar.readiness_port"@,
                    "no unused unprivileged port remains for sidecar readiness"@,
                ),
            },
        },
    }
}

proof fn lemma_free_port(occupied: Set<u16>, from: int, end: int)
    requires
        0 <= from,
        end <= 65536,
    ensures
        free_port(occupied, from, end) matches Some(port) ==> !occupied.contains(port) && from
            <= port < end,
    decreases end - from,
{
    if from < end && occupied.contains(from as u16) {
        lemma_free_port(occupied, from + 1, end);
    }
}

proof fn lemma_occupied_grows(
    occupied: Set<u16>,
    env: Seq<EnvVarTemplate>,
    from: nat,
    to: nat,
    values: ValuesView,
)
    requires
        from <= to <= env.len(),
        occupied_outcome(occupied, env, to, values) is Ok,
    ensures
        occupied_outcome(occupied, env, from, values) is Ok,
        occupied_outcome(occupied, env, from, values)->Ok_0.subset_of(
            occupied_outcome(occupied, env, to, values)->Ok_0,
        ),
    decreases to,
{
    if from < to {
        lemma_occupied_grows(occupied, env, from, (to - 1) as nat, values);
    }
}

/// The readiness port is unprivileged, and neither a container nor the sidecar
/// nor a metrics listener in the pod uses it.
pub proof fn law_readiness_port_is_unused(template: ManifestTemplate, values: ValuesView)
    requires
        readiness_port_outcome(template, values) is Ok,
    ensures
        ({
            let port = readiness_port_outcome(template, values)->Ok_0;
            let container = template.workload.app_container;
            &&& port >= 1024
            &&& port != template.sidecar.listen_port
            &&& forall|i: int|
                0 <= i < container.ports@.len() ==> (#[trigger] container.ports@[i]).container_port
                    != port
            &&& forall|i: int|
                0 <= i < container.env@.len() && metrics_variable(
                    (#[trigger] container.env@[i]).name@,
                ) ==> match template::rendered_text(container.env@[i].value@, values) {
                    Ok(address) => match net::parsed_socket(address) {
                        Some(socket) => address.len() > 0 ==> socket.port != port,
                        None => address.len() == 0,
                    },
                    Err(_) => false,
                }
        }),
{
    let container = template.workload.app_container;
    let declared = declared_ports(container.ports@, template.sidecar.listen_port);
    let occupied = occupied_outcome(
        declared,
        container.env@,
        container.env@.len(),
        values,
    )->Ok_0;
    let port = readiness_port_outcome(template, values)->Ok_0;
    lemma_free_port(occupied, 15001, 65536);
    lemma_free_port(occupied, 1024, 15001);
    lemma_occupied_grows(declared, container.env@, 0, container.env@.len(), values);
    assert(!declared.contains(port));
    assert forall|i: int|
        0 <= i < container.env@.len() && metrics_variable(
            (#[trigger] container.env@[i]).name@,
        ) implies match template::rendered_text(container.env@[i].value@, values) {
        Ok(address) => match net::parsed_socket(address) {
            Some(socket) => address.len() > 0 ==> socket.port != port,
            None => address.len() == 0,
        },
        Err(_) => false,
    } by {
        lemma_occupied_grows(
            declared,
            container.env@,
            (i + 1) as nat,
            container.env@.len(),
            values,
        );
    }
}

fn is_metrics_variable(name: &str) -> (result: bool)
    ensures
        result == metrics_variable(name@),
{
    same_text(name, "SLEEPYPODS_SIDECAR_METRICS_LISTEN_ADDR") || same_text(
        name,
        "SLEEPYPODS_FRONTLINE_METRICS_LISTEN_ADDR",
    ) || same_text(name, "SLEEPYPODS_CONTROL_PLANE_METRICS_LISTEN_ADDR")
}

/// A table of ports shows which are in a set.
spec fn shows(table: Seq<bool>, occupied: Set<u16>) -> bool {
    table.len() == 65536 && forall|port: u16|
        #[trigger] occupied.contains(port) == table[port as int]
}

fn first_free(table: &Vec<bool>, from: u32, end: u32, Ghost(occupied): Ghost<Set<u16>>) -> (port:
    Option<u16>)
    requires
        shows(table@, occupied),
        from <= end <= 65536,
    ensures
        port == free_port(occupied, from as int, end as int),
{
    let mut at: u32 = from;
    while at < end
        invariant
            from <= at <= end <= 65536,
            shows(table@, occupied),
            free_port(occupied, from as int, end as int) == free_port(
                occupied,
                at as int,
                end as int,
            ),
        decreases end - at,
    {
        let port: u16 = at as u16;
        assert(occupied.contains(port) == table@[port as int]);
        if !table[port as usize] {
            return Some(port);
        }
        at = at + 1;
    }
    None
}

proof fn lemma_occupied_error_stays(
    occupied: Set<u16>,
    env: Seq<EnvVarTemplate>,
    from: nat,
    to: nat,
    values: ValuesView,
)
    requires
        from <= to <= env.len(),
        occupied_outcome(occupied, env, from, values) is Err,
    ensures
        occupied_outcome(occupied, env, to, values) == occupied_outcome(
            occupied,
            env,
            from,
            values,
        ),
    decreases to,
{
    if from < to {
        lemma_occupied_error_stays(occupied, env, from, (to - 1) as nat, values);
    }
}

/// Finds the port on which the sidecar tells whether it is ready.
pub fn readiness_port(template: &ManifestTemplate, values: &InstanceValues) -> (result: Result<
    u16,
    ManifestRenderError,
>)
    ensures
        (match result {
            Ok(port) => Ok(port),
            Err(error) => Err(error@),
        }) == readiness_port_outcome(*template, values@),
{
    let ports = &template.workload.app_container.ports;
    let env = &template.workload.app_container.env;
    let mut table: Vec<bool> = Vec::new();
    let mut filled: usize = 0;
    while filled < 65536
        invariant
            filled <= 65536,
            table@.len() == filled,
            forall|i: int| 0 <= i < filled ==> !#[trigger] table@[i],
        decreases 65536 - filled,
    {
        table.push(false);
        filled = filled + 1;
    }
    table.set(template.sidecar.listen_port as usize, true);
    let mut at: usize = 0;
    while at < ports.len()
        invariant
            at <= ports.len(),
            table@.len() == 65536,
            forall|port: u16|
                (#[trigger] table@[port as int]) == (port == template.sidecar.listen_port || exists|
                    i: int,
                |
                    0 <= i < at && (#[trigger] ports@[i]).container_port == port),
        decreases ports.len() - at,
    {
        let ghost before = table@;
        let declared: u16 = ports[at].container_port;
        table.set(declared as usize, true);
        proof {
            assert forall|port: u16| (#[trigger] table@[port as int]) == (port
                == template.sidecar.listen_port || exists|i: int|
                0 <= i < at + 1 && (#[trigger] ports@[i]).container_port == port) by {
                assert(ports@[at as int].container_port == declared);
                if port != declared {
                    assert(table@[port as int] == before[port as int]);
                    if exists|i: int|
                        0 <= i < at + 1 && (#[trigger] ports@[i]).container_port == port {
                        let i = choose|i: int|
                            0 <= i < at + 1 && (#[trigger] ports@[i]).container_port == port;
                        assert(i < at);
                    }
                }
            }
        }
        at = at + 1;
    }
    let ghost declared = declared_ports(ports@, template.sidecar.listen_port);
    let ghost mut occupied = declared;
    assert(shows(table@, occupied)) by {
        assert forall|port: u16| #[trigger] occupied.contains(port) == table@[port as int] by {}
    }
    let mut index: usize = 0;
    while index < env.len()
        invariant
            index <= env.len(),
            shows(table@, occupied),
            occupied_outcome(declared, env@, index as nat, values@) == Ok::<
                Set<u16>,
                RenderErrorView,
            >(occupied),
            readiness_port_outcome(*template, values@) is Err || occupied_outcome(
                declared,
                env@,
                env@.len(),
                values@,
            ) is Ok,
            occupied_outcome(declared, env@, env@.len(), values@) is Err
                ==> readiness_port_outcome(*template, values@) == Err::<u16, RenderErrorView>(
                occupied_outcome(declared, env@, env@.len(), values@)->Err_0,
            ),
        decreases env.len() - index,
    {
        let variable = &env[index];
        if is_metrics_variable(variable.name.as_str()) {
            match variable.value.render(values) {
                Err(error) => {
                    proof {
                        lemma_occupied_error_stays(
                            declared,
                            env@,
                            (index + 1) as nat,
                            env@.len(),
                            values@,
                        );
                    }
                    return Err(error);
                },
                Ok(address) => {
                    if !address.as_str().is_empty() {
                        match parse_socket(address.as_str()) {
                            Some(socket) => {
                                let ghost before = table@;
                                table.set(socket.port as usize, true);
                                proof {
                                    occupied = occupied.insert(socket.port);
                                    assert forall|port: u16| #[trigger] occupied.contains(port)
                                        == table@[port as int] by {
                                        if port != socket.port {
                                            assert(table@[port as int] == before[port as int]);
                                        }
                                    }
                                }
                            },
                            None => {
                                proof {
                                    lemma_occupied_error_stays(
                                        declared,
                                        env@,
                                        (index + 1) as nat,
                                        env@.len(),
                                        values@,
                                    );
                                }
                                let message = variable.name.clone().concat(
                                    " must be a socket address",
                                );
                                return Err(
                                    field_error(
                                        "container.env.metrics_listen_addr",
                                        message.as_str(),
                                    ),
                                );
                            },
                        }
                    }
                },
            }
        }
        index = index + 1;
    }
    if let Some(port) = first_free(&table, 15001, 65536, Ghost(occupied)) {
        return Ok(port);
    }
    match first_free(&table, 1024, 15001, Ghost(occupied)) {
        Some(port) => Ok(port),
        None => Err(
            field_error(
                "sidecar.readiness_port",
                "no unused unprivileged port remains for sidecar readiness",
            ),
        ),
    }
}

} // verus!
