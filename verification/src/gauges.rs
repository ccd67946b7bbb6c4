//! What is shown to those who watch the control plane.

use crate::duration::Duration;
use crate::manifest;
use crate::materialization::{
    MaterializationBacklogOperationalMetrics, MaterializationHeldKeysOperationalMetrics,
    MaterializationOperationalMetrics, MaterializationState,
};
use vstd::prelude::*;

verus! {

/// A number that is shown. The last one shown of a kind and a state counts.
#[derive(Clone, Copy, Debug, PartialEq, Eq)]
pub enum Gauge {
    /// How many materializations wait in a state.
    Nonterminal { state: MaterializationState, count: u64 },
    /// How old the oldest of them is.
    OldestAge { state: MaterializationState, age: Duration },
    /// How many keys are held in a state.
    KeysHeld { state: MaterializationState, count: u64 },
    /// How many changes of the cluster have an open outcome.
    UncertainEffects { count: u64 },
    /// How many failures only an operator can lift.
    BlockedFailures { count: u64 },
}

/// The mathematical model of a [`Gauge`]: ages in nanoseconds.
#[verifier::ext_equal]
pub enum GaugeView {
    Nonterminal { state: MaterializationState, count: u64 },
    OldestAge { state: MaterializationState, age: nat },
    KeysHeld { state: MaterializationState, count: u64 },
    UncertainEffects { count: u64 },
    BlockedFailures { count: u64 },
}

impl View for Gauge {
    type V = GaugeView;

    open spec fn view(&self) -> GaugeView {
        match self {
            Gauge::Nonterminal { state, count } => GaugeView::Nonterminal {
                state: *state,
                count: *count,
            },
            Gauge::OldestAge { state, age } => GaugeView::OldestAge { state: *state, age: age@ },
            Gauge::KeysHeld { state, count } => GaugeView::KeysHeld {
                state: *state,
                count: *count,
            },
            Gauge::UncertainEffects { count } => GaugeView::UncertainEffects { count: *count },
            Gauge::BlockedFailures { count } => GaugeView::BlockedFailures { count: *count },
        }
    }
}

/// What is shown of every state before anything is known: a state that nobody
/// counted is shown with nothing in it.
pub open spec fn zero_gauges() -> Seq<GaugeView> {
    seq![
        GaugeView::Nonterminal { state: MaterializationState::Pending, count: 0 },
        GaugeView::OldestAge { state: MaterializationState::Pending, age: 0 },
        GaugeView::Nonterminal { state: MaterializationState::Deleting, count: 0 },
        GaugeView::OldestAge { state: MaterializationState::Deleting, age: 0 },
        GaugeView::KeysHeld { state: MaterializationState::Pending, count: 0 },
        GaugeView::KeysHeld { state: MaterializationState::Ready, count: 0 },
        GaugeView::KeysHeld { state: MaterializationState::Failed, count: 0 },
        GaugeView::KeysHeld { state: MaterializationState::Deleting, count: 0 },
    ]
}

/// What is shown of the first of some states with a backlog.
pub open spec fn backlog_gauges(
    states: Seq<MaterializationBacklogOperationalMetrics>,
    count: nat,
) -> Seq<GaugeView>
    decreases count,
{
    if count == 0 || count > states.len() {
        Seq::empty()
    } else {
        let last = states[count - 1];
        backlog_gauges(states, (count - 1) as nat) + seq![
            GaugeView::Nonterminal { state: last.state, count: last.count },
            GaugeView::OldestAge {
                state: last.state,
                age: match last.oldest_age {
                    Some(age) => age@,
                    None => 0,
                },
            },
        ]
    }
}

/// What is shown of the first of some states with held keys.
pub open spec fn held_key_gauges(
    states: Seq<MaterializationHeldKeysOperationalMetrics>,
    count: nat,
) -> Seq<GaugeView>
    decreases count,
{
    if count == 0 || count > states.len() {
        Seq::empty()
    } else {
        let last = states[count - 1];
        held_key_gauges(states, (count - 1) as nat).push(
            GaugeView::KeysHeld { state: last.state, count: last.exclusivity_keys_held },
        )
    }
}

/// What is shown of metrics that were read.
pub open spec fn read_gauges(metrics: MaterializationOperationalMetrics) -> Seq<GaugeView> {
    seq![
        GaugeView::UncertainEffects { count: metrics.uncertain_effects },
        GaugeView::BlockedFailures { count: metrics.blocked_failures },
    ] + backlog_gauges(metrics.backlog_states@, metrics.backlog_states@.len()) + held_key_gauges(
        metrics.held_key_states@,
        metrics.held_key_states@.len(),
    )
}

/// What is shown, in order: nothing in every state, then what was read, if anything
/// was.
pub open spec fn gauges_of(metrics: Option<MaterializationOperationalMetrics>) -> Seq<GaugeView> {
    match metrics {
        None => zero_gauges(),
        Some(metrics) => zero_gauges() + read_gauges(metrics),
    }
}

fn push_all_zero(gauges: &mut Vec<Gauge>)
    requires
        old(gauges)@.len() == 0,
    ensures
        manifest::views(final(gauges)@) == zero_gauges(),
{
    let pending = MaterializationState::Pending;
    let deleting = MaterializationState::Deleting;
    gauges.push(Gauge::Nonterminal { state: pending, count: 0 });
    gauges.push(Gauge::OldestAge { state: pending, age: Duration::zero() });
    gauges.push(Gauge::Nonterminal { state: deleting, count: 0 });
    gauges.push(Gauge::OldestAge { state: deleting, age: Duration::zero() });
    gauges.push(Gauge::KeysHeld { state: pending, count: 0 });
    gauges.push(Gauge::KeysHeld { state: MaterializationState::Ready, count: 0 });
    gauges.push(Gauge::KeysHeld { state: MaterializationState::Failed, count: 0 });
    gauges.push(Gauge::KeysHeld { state: deleting, count: 0 });
    assert(manifest::views(gauges@) =~= zero_gauges());
}

/// What is shown, in order, from the metrics if they could be read.
pub fn operational_gauges(metrics: Option<&MaterializationOperationalMetrics>) -> (gauges: Vec<Gauge>)
    ensures
        manifest::views(gauges@) == gauges_of(
            match metrics {
                Some(metrics) => Some(*metrics),
                None => None,
            },
        ),
{
    let mut gauges: Vec<Gauge> = Vec::new();
    push_all_zero(&mut gauges);
    let metrics = match metrics {
        None => {
            return gauges;
        },
        Some(metrics) => metrics,
    };
    gauges.push(Gauge::UncertainEffects { count: metrics.uncertain_effects });
    gauges.push(Gauge::BlockedFailures { count: metrics.blocked_failures });
    let ghost front = zero_gauges() + seq![
        GaugeView::UncertainEffects { count: metrics.uncertain_effects },
        GaugeView::BlockedFailures { count: metrics.blocked_failures },
    ];
    assert(manifest::views(gauges@) =~= front);
    let mut at: usize = 0;
    assert(front + backlog_gauges(metrics.backlog_states@, 0) =~= front);
    while at < metrics.backlog_states.len()
        invariant
            at <= metrics.backlog_states@.len(),
            manifest::views(gauges@) == front + backlog_gauges(
                metrics.backlog_states@,
                at as nat,
            ),
        decreases metrics.backlog_states@.len() - at,
    {
        let row = &metrics.backlog_states[at];
        let age = match row.oldest_age {
            Some(age) => age,
            None => Duration::zero(),
        };
        let ghost before = manifest::views(gauges@);
        gauges.push(Gauge::Nonterminal { state: row.state, count: row.count });
        gauges.push(Gauge::OldestAge { state: row.state, age });
        proof {
            let shown = seq![
                GaugeView::Nonterminal { state: row.state, count: row.count },
                GaugeView::OldestAge { state: row.state, age: age@ },
            ];
            assert(manifest::views(gauges@) =~= before + shown);
            assert(before + shown =~= front + (backlog_gauges(metrics.backlog_states@, at as nat)
                + shown));
        }
        at = at + 1;
    }
    let ghost middle = manifest::views(gauges@);
    assert(middle + held_key_gauges(metrics.held_key_states@, 0) =~= middle);
    let mut at: usize = 0;
    while at < metrics.held_key_states.len()
        invariant
            at <= metrics.held_key_states@.len(),
            manifest::views(gauges@) == middle + held_key_gauges(
                metrics.held_key_states@,
                at as nat,
            ),
        decreases metrics.held_key_states@.len() - at,
    {
        let row = &metrics.held_key_states[at];
        let ghost before = manifest::views(gauges@);
        gauges.push(Gauge::KeysHeld { state: row.state, count: row.exclusivity_keys_held });
        proof {
            let shown = GaugeView::KeysHeld { state: row.state, count: row.exclusivity_keys_held };
            assert(manifest::views(gauges@) =~= before.push(shown));
            assert(before.push(shown) =~= middle + held_key_gauges(
                metrics.held_key_states@,
                at as nat,
            ).push(shown));
        }
        at = at + 1;
    }
    assert(manifest::views(gauges@) =~= zero_gauges() + read_gauges(*metrics));
    gauges
}

/// How many materializations are shown to wait in a state: the last number counts.
pub open spec fn shown_waiting(gauges: Seq<GaugeView>, state: MaterializationState) -> Option<u64>
    decreases gauges.len(),
{
    if gauges.len() == 0 {
        None
    } else {
        match gauges.last() {
            GaugeView::Nonterminal { state: told, count } if told == state => Some(count),
            _ => shown_waiting(gauges.drop_last(), state),
        }
    }
}

proof fn lemma_shown_behind(front: Seq<GaugeView>, back: Seq<GaugeView>, state: MaterializationState)
    ensures
        shown_waiting(front + back, state) == (match shown_waiting(back, state) {
            Some(count) => Some(count),
            None => shown_waiting(front, state),
        }),
    decreases back.len(),
{
    if back.len() == 0 {
        assert(front + back =~= front);
    } else {
        assert((front + back).drop_last() =~= front + back.drop_last());
        assert((front + back).last() == back.last());
        lemma_shown_behind(front, back.drop_last(), state);
    }
}

proof fn lemma_held_keys_show_no_waiting(
    states: Seq<MaterializationHeldKeysOperationalMetrics>,
    count: nat,
    state: MaterializationState,
)
    requires
        count <= states.len(),
    ensures
        shown_waiting(held_key_gauges(states, count), state) is None,
    decreases count,
{
    if count > 0 {
        lemma_held_keys_show_no_waiting(states, (count - 1) as nat, state);
        let shown = held_key_gauges(states, count);
        assert(shown.drop_last() =~= held_key_gauges(states, (count - 1) as nat));
    }
}

/// The number that the last of some rows about a state tells.
pub open spec fn last_told(
    states: Seq<MaterializationBacklogOperationalMetrics>,
    count: nat,
    state: MaterializationState,
) -> Option<u64>
    decreases count,
{
    if count == 0 || count > states.len() {
        None
    } else if states[count - 1].state == state {
        Some(states[count - 1].count)
    } else {
        last_told(states, (count - 1) as nat, state)
    }
}

proof fn lemma_backlog_shows(
    states: Seq<MaterializationBacklogOperationalMetrics>,
    count: nat,
    state: MaterializationState,
)
    requires
        count <= states.len(),
    ensures
        shown_waiting(backlog_gauges(states, count), state) == last_told(states, count, state),
    decreases count,
{
    if count > 0 {
        lemma_backlog_shows(states, (count - 1) as nat, state);
        let last = states[count - 1];
        let shown = seq![
            GaugeView::Nonterminal { state: last.state, count: last.count },
            GaugeView::OldestAge {
                state: last.state,
                age: match last.oldest_age {
                    Some(age) => age@,
                    None => 0,
                },
            },
        ];
        lemma_shown_behind(backlog_gauges(states, (count - 1) as nat), shown, state);
        reveal_with_fuel(shown_waiting, 3);
        assert(shown.drop_last() =~= seq![shown[0]]);
        assert(seq![shown[0]].drop_last() =~= Seq::<GaugeView>::empty());
    }
}

/// Work that waits is always shown: a state with work to do shows what was counted
/// in it, and zero where nothing was counted or nothing could be read.
pub proof fn law_waiting_work_is_shown(
    metrics: Option<MaterializationOperationalMetrics>,
    state: MaterializationState,
)
    requires
        state == MaterializationState::Pending || state == MaterializationState::Deleting,
    ensures
        shown_waiting(gauges_of(metrics), state) == (match metrics {
            None => Some(0u64),
            Some(metrics) => match last_told(
                metrics.backlog_states@,
                metrics.backlog_states@.len(),
                state,
            ) {
                Some(count) => Some(count),
                None => Some(0u64),
            },
        }),
{
    let zeros = zero_gauges();
    assert(shown_waiting(zeros, state) == Some(0u64)) by {
        reveal_with_fuel(shown_waiting, 9);
        let seven = zeros.drop_last();
        let six = seven.drop_last();
        let five = six.drop_last();
        let four = five.drop_last();
        let three = four.drop_last();
        let two = three.drop_last();
        let one = two.drop_last();
        assert(one.len() == 1);
    }
    if let Some(metrics) = metrics {
        let head = seq![
            GaugeView::UncertainEffects { count: metrics.uncertain_effects },
            GaugeView::BlockedFailures { count: metrics.blocked_failures },
        ];
        let backlog = backlog_gauges(metrics.backlog_states@, metrics.backlog_states@.len());
        let held = held_key_gauges(metrics.held_key_states@, metrics.held_key_states@.len());
        lemma_shown_behind(zeros, read_gauges(metrics), state);
        lemma_shown_behind(head + backlog, held, state);
        lemma_shown_behind(head, backlog, state);
        lemma_held_keys_show_no_waiting(
            metrics.held_key_states@,
            metrics.held_key_states@.len(),
            state,
        );
        lemma_backlog_shows(metrics.backlog_states@, metrics.backlog_states@.len(), state);
        assert(shown_waiting(head, state) is None) by {
            reveal_with_fuel(shown_waiting, 3);
            assert(head.drop_last() =~= seq![head[0]]);
            assert(seq![head[0]].drop_last() =~= Seq::<GaugeView>::empty());
        }
    }
}

} // verus!
