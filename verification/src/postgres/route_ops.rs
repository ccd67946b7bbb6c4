//! Routes in the store: which hosts a name can be found under, and what a
//! repeated request gets.

use super::materialization_ops::{self, counted};
use crate::backend::BackendEndpoint;
use crate::duration::Duration;
use crate::ids::{BackendGeneration, Generation, InstanceId, RouteBindingId};
use crate::instance::{InstanceRecord, InstanceState};
use crate::manifest;
use crate::materialization::MaterializationRecord;
use crate::route::{self, RouteEntry, RouteIdentity, RouteResolution};
use crate::store::{self, StoreError, StoreErrorView};
use crate::text::{characters, same_text, text_of};
use vstd::prelude::*;

verus! {

/// The operation that creates a route.
pub const CREATE_ROUTE_BINDING_OPERATION: &'static str = "create_route_binding";

/// What follows each dot of a host, from the first dot on: the suffixes that a
/// wildcard can name.
pub open spec fn suffixes_from(host: Seq<char>, from: int) -> Seq<Seq<char>>
    decreases host.len() - from,
{
    if from < 0 || from >= host.len() {
        Seq::empty()
    } else if host[from] == '.' {
        seq![host.skip(from + 1)] + suffixes_from(host, from + 1)
    } else {
        suffixes_from(host, from + 1)
    }
}

/// The suffixes of a host that a wildcard can name, the longest first.
pub fn host_suffixes(host: &str) -> (suffixes: Vec<String>)
    ensures
        manifest::views(suffixes@) == suffixes_from(host@, 0),
{
    let list = characters(host);
    let mut suffixes: Vec<String> = Vec::new();
    let mut at: usize = 0;
    assert(manifest::views(suffixes@) + suffixes_from(host@, 0) =~= suffixes_from(host@, 0));
    while at < list.len()
        invariant
            at <= list@.len(),
            list@ == host@,
            manifest::views(suffixes@) + suffixes_from(host@, at as int) == suffixes_from(host@, 0),
        decreases list@.len() - at,
    {
        if list[at] == '.' {
            let suffix = text_of(&list, at + 1, list.len());
            assert(suffix@ =~= host@.skip(at + 1));
            let ghost before = manifest::views(suffixes@);
            suffixes.push(suffix);
            assert(manifest::views(suffixes@) =~= before.push(suffix@));
            assert(before.push(suffix@) + suffixes_from(host@, at + 1) =~= before + (
            seq![host@.skip(at + 1)] + suffixes_from(host@, at + 1)));
        }
        at = at + 1;
    }
    assert(manifest::views(suffixes@) + suffixes_from(host@, at as int) =~= manifest::views(
        suffixes@,
    ));
    suffixes
}

/// Every suffix of a host is shorter than the host and follows a dot in it.
pub proof fn law_suffixes_follow_dots(host: Seq<char>, from: int, at: int)
    requires
        0 <= from,
        0 <= at < suffixes_from(host, from).len(),
    ensures
        exists|dot: int|
            from <= dot < host.len() && host[dot] == '.' && #[trigger] host.skip(dot + 1)
                == suffixes_from(host, from)[at],
    decreases host.len() - from,
{
    if from < host.len() {
        if host[from] == '.' {
            if at == 0 {
                assert(host.skip(from + 1) == suffixes_from(host, from)[at]);
            } else {
                assert(suffixes_from(host, from)[at] == suffixes_from(host, from + 1)[at - 1]);
                law_suffixes_follow_dots(host, from + 1, at - 1);
            }
        } else {
            law_suffixes_follow_dots(host, from + 1, at);
        }
    }
}

proof fn lemma_every_dot_gives_a_suffix(host: Seq<char>, from: int, dot: int)
    requires
        0 <= from <= dot < host.len(),
        host[dot] == '.',
    ensures
        suffixes_from(host, from).contains(host.skip(dot + 1)),
    decreases dot - from,
{
    let all = suffixes_from(host, from);
    if from == dot {
        assert(all[0] == host.skip(dot + 1));
    } else {
        lemma_every_dot_gives_a_suffix(host, from + 1, dot);
        let rest = suffixes_from(host, from + 1);
        let i = choose|i: int| 0 <= i < rest.len() && rest[i] == host.skip(dot + 1);
        if host[from] == '.' {
            assert(all[i + 1] == rest[i]);
        } else {
            assert(all[i] == rest[i]);
        }
    }
}

/// The suffixes that are looked up are those, and only those, that a host stands
/// below: no wildcard that fits is missed, and none that does not fit is found.
pub proof fn law_suffixes_are_the_wildcards(host: Seq<char>, suffix: Seq<char>)
    ensures
        suffixes_from(host, 0).contains(suffix) <==> route::stands_below(host, suffix),
{
    let all = suffixes_from(host, 0);
    if all.contains(suffix) {
        let at = choose|i: int| 0 <= i < all.len() && all[i] == suffix;
        law_suffixes_follow_dots(host, 0, at);
    }
    if route::stands_below(host, suffix) {
        let dot = choose|dot: int|
            0 <= dot < host.len() && host[dot] == '.' && #[trigger] host.skip(dot + 1) == suffix;
        lemma_every_dot_gives_a_suffix(host, 0, dot);
    }
}

/// The row of the route that fits a request best, with the instance it leads to and
/// the backend of the instance, where it has one that is ready.
#[derive(Debug, PartialEq, Eq)]
pub struct RouteRow {
    pub route_binding_id: RouteBindingId,
    pub instance_id: InstanceId,
    pub identity: RouteIdentity,
    pub instance_state: InstanceState,
    pub generation: i64,
    pub backend: Option<BackendEndpoint>,
    pub backend_generation: Option<i64>,
}

/// The revisions of a row, which are never negative.
pub open spec fn row_generations(row: RouteRow) -> Result<(u64, Option<u64>), StoreErrorView> {
    match materialization_ops::count_outcome(row.generation, "stored generation was negative"@) {
        Err(error) => Err(error),
        Ok(generation) => match row.backend_generation {
            None => Ok((generation, None)),
            Some(backend) => match materialization_ops::count_outcome(
                backend,
                "stored backend generation was negative"@,
            ) {
                Err(error) => Err(error),
                Ok(backend) => Ok((generation, Some(backend))),
            },
        },
    }
}

/// An entry tells where the route of a row leads.
pub open spec fn entry_of_row(entry: RouteEntry, row: RouteRow, generations: (u64, Option<u64>)) -> bool {
    &&& entry.route_binding_id == row.route_binding_id
    &&& entry.instance_id == row.instance_id
    &&& entry.instance_state == row.instance_state
    &&& entry.instance_generation@ == generations.0
    &&& entry.backend == row.backend
    &&& manifest::optional_view(entry.backend_generation) == generations.1
}

/// A request for a route is answered by the row that fits it best.
pub open spec fn resolved_by(
    result: Result<RouteResolution, StoreError>,
    row: Option<RouteRow>,
    negative_cache: Duration,
) -> bool {
    match row {
        None => result == Ok::<RouteResolution, StoreError>(
            RouteResolution::Miss { negative_cache },
        ),
        Some(row) => match row_generations(row) {
            Err(error) => result matches Err(told) && told@ == error,
            Ok(generations) => result matches Ok(
                RouteResolution::Resolved { matched_identity, entry },
            ) && matched_identity == row.identity && entry_of_row(entry, row, generations),
        },
    }
}

/// What a request for a route is answered with, from the row that fits it best.
pub fn resolve_route(row: Option<RouteRow>, negative_cache: Duration) -> (result: Result<
    RouteResolution,
    StoreError,
>)
    ensures
        resolved_by(result, row, negative_cache),
{
    match row {
        None => Ok(RouteResolution::Miss { negative_cache }),
        Some(row) => {
            let generation: u64 = counted(row.generation, "stored generation was negative")?;
            let backend_generation = match row.backend_generation {
                None => None,
                Some(backend) => {
                    let value: u64 = counted(backend, "stored backend generation was negative")?;
                    Some(BackendGeneration::new(value))
                },
            };
            Ok(
                RouteResolution::Resolved {
                    matched_identity: row.identity,
                    entry: RouteEntry {
                        route_binding_id: row.route_binding_id,
                        instance_id: row.instance_id,
                        instance_state: row.instance_state,
                        instance_generation: Generation::new(generation),
                        backend: row.backend,
                        backend_generation,
                    },
                },
            )
        },
    }
}

/// What a route depends on.
#[derive(Debug, PartialEq, Eq)]
pub struct RouteDependencySet {
    pub route_binding_id: RouteBindingId,
    pub instance_id: InstanceId,
    pub materialization_generation: Option<BackendGeneration>,
}

/// A route depends on its instance and on what of it is ready.
pub open spec fn depends_on(
    result: Result<Option<RouteDependencySet>, StoreError>,
    route_binding_id: Option<RouteBindingId>,
    instance: Option<InstanceRecord>,
    ready: Option<MaterializationRecord>,
) -> bool {
    match (route_binding_id, instance) {
        (None, _) => result == Ok::<Option<RouteDependencySet>, StoreError>(None),
        (Some(_), None) => result matches Err(error) && error@ == (StoreErrorView::NotFound {
            resource: "instance"@,
        }),
        (Some(route), Some(instance)) => result matches Ok(Some(set)) && set.route_binding_id
            == route && set.instance_id == instance.id && set.materialization_generation == (
        match ready {
            Some(record) => Some(record.backend_generation),
            None => None,
        }),
    }
}

/// What a route depends on: nothing where there is no route, and otherwise its
/// instance, which must be there, and what of it is ready, if anything is.
pub fn lookup_route_dependencies(
    route_binding_id: Option<RouteBindingId>,
    instance: Option<InstanceRecord>,
    ready: Option<&MaterializationRecord>,
) -> (result: Result<Option<RouteDependencySet>, StoreError>)
    ensures
        depends_on(
            result,
            route_binding_id,
            instance,
            match ready {
                Some(record) => Some(*record),
                None => None,
            },
        ),
{
    match route_binding_id {
        None => Ok(None),
        Some(route_binding_id) => match instance {
            None => Err(StoreError::NotFound { resource: "instance" }),
            Some(instance) => {
                let materialization_generation = match ready {
                    Some(record) => Some(record.backend_generation),
                    None => None,
                };
                Ok(
                    Some(
                        RouteDependencySet {
                            route_binding_id,
                            instance_id: instance.id,
                            materialization_generation,
                        },
                    ),
                )
            },
        },
    }
}

/// What is kept of an earlier request with the same key.
#[derive(Clone, Debug, PartialEq, Eq)]
pub struct ReplayRow {
    pub operation: String,
    pub same_fingerprint: bool,
    pub resource_deleted: bool,
}

/// A repeated request gets what the first one made: the same request, while what
/// it made is there.
pub open spec fn replay_verdict(row: Option<ReplayRow>) -> Result<(), StoreErrorView> {
    match row {
        None => Err(
            StoreErrorView::Unavailable {
                message: "idempotency key expired during replay; retry request"@,
            },
        ),
        Some(row) => if row.operation@ != CREATE_ROUTE_BINDING_OPERATION@ || !row.same_fingerprint {
            Err(StoreErrorView::IdempotencyConflict)
        } else if row.resource_deleted {
            Err(StoreErrorView::IdempotencyResourceDeleted { resource: "route binding"@ })
        } else {
            Ok(())
        },
    }
}

/// Checks that a repeated request may get what the first one made.
pub fn replay_create_route_binding(row: &Option<ReplayRow>) -> (result: Result<(), StoreError>)
    ensures
        store::plain_answer(result) == replay_verdict(*row),
{
    match row {
        None => Err(
            StoreError::unavailable("idempotency key expired during replay; retry request"),
        ),
        Some(row) => {
            if !same_text(row.operation.as_str(), CREATE_ROUTE_BINDING_OPERATION)
                || !row.same_fingerprint {
                return Err(StoreError::IdempotencyConflict);
            }
            if row.resource_deleted {
                return Err(
                    StoreError::IdempotencyResourceDeleted { resource: "route binding" },
                );
            }
            Ok(())
        },
    }
}

} // verus!
