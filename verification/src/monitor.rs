//! The monitoring cycle as a state machine.
//!
//! One cycle is fetch balances → fetch rate → push each vault's derived
//! growth. The machine decides, from its state and the event that just
//! arrived, what the surrounding loop must do next; the loop performs the
//! action (a chain call or a timer wait) and feeds the outcome back in as
//! the next event. Every failure ends at most the current cycle, never
//! the machine: each transition returns a well-formed state, and a new
//! cycle begins on the next tick.

use crate::balance::VaultBalance;
use crate::config::MonitoringConfig;
use crate::growth::growth_saturating;
use crate::growth::rate_is_alert;
use crate::growth::spec_growth_saturating;
use crate::growth::ALERT_THRESHOLD_BPS;
use vstd::prelude::*;

verus! {

/// The closed error taxonomy: a fetch call failed, or the push call
/// failed. Both carry the message the failing call reported, and both are
/// terminal only for the current cycle.
#[derive(Debug, Clone, PartialEq, Eq)]
pub enum MonitorError {
    SourceUnavailable(String),
    SinkWriteFailed(String),
}

/// One pending sink write: the account and its derived growth figure.
#[derive(Debug, Clone, PartialEq, Eq)]
pub struct PushItem {
    pub account: String,
    pub growth: u128,
}

/// Where the machine stands within a cycle. `AwaitingPush` holds the
/// remaining work of the cycle: the derived items and the index of the
/// item whose push is in flight plus one.
#[derive(Debug)]
pub enum CycleState {
    Idle,
    AwaitingBalances,
    AwaitingRate(Vec<VaultBalance>),
    AwaitingPush(Vec<PushItem>, usize),
}

/// What the surrounding loop reports back: a timer tick, or the outcome
/// of the chain call it was asked to make. A failed call carries the
/// message of the failure.
#[derive(Debug)]
pub enum Event {
    Tick,
    BalancesFetched(Result<Vec<VaultBalance>, String>),
    RateFetched(Result<u64, String>),
    GrowthPushed(Result<(), String>),
}

/// What the surrounding loop must do next. When no action is requested,
/// the loop waits for the next timer tick.
#[derive(Debug, Clone, PartialEq, Eq)]
pub enum Action {
    FetchBalances,
    FetchRate,
    PushGrowth(String, u128),
}

/// The visible outcome of one transition: the action to perform next,
/// whether the low-rate alert fired on this transition, and the error to
/// log, if any.
#[derive(Debug, Clone, PartialEq, Eq)]
pub struct StepOutput {
    pub action: Option<Action>,
    pub alert: bool,
    pub error: Option<MonitorError>,
}

impl CycleState {
    /// While a push is in flight, its index lies within the items.
    pub open spec fn wf(self) -> bool {
        match self {
            CycleState::AwaitingPush(pushes, next) => 1 <= next <= pushes@.len(),
            _ => true,
        }
    }
}

/// `pushes` carries exactly one item per balance record, in order: the
/// record's account, and its growth at the given rate.
pub open spec fn push_items_match(
    pushes: Seq<PushItem>,
    balances: Seq<VaultBalance>,
    rate_bps: u64,
) -> bool {
    &&& pushes.len() == balances.len()
    &&& forall|i: int|
        0 <= i < balances.len() ==> (#[trigger] pushes[i]).account@ == balances[i].child_address@
            && pushes[i].growth == spec_growth_saturating(balances[i].vault_amount, rate_bps)
}

/// The one event each state awaits; anything else is a protocol mismatch.
pub open spec fn event_expected(state: CycleState, event: Event) -> bool {
    match (state, event) {
        (CycleState::Idle, Event::Tick) => true,
        (CycleState::AwaitingBalances, Event::BalancesFetched(_)) => true,
        (CycleState::AwaitingRate(_), Event::RateFetched(_)) => true,
        (CycleState::AwaitingPush(_, _), Event::GrowthPushed(_)) => true,
        _ => false,
    }
}

/// A transition begins a cycle exactly when it requests a balance fetch.
pub open spec fn is_cycle_start(out: StepOutput) -> bool {
    out.action == Some(Action::FetchBalances)
}

/// The full transition relation of the machine: what `step` promises of
/// the state it leaves and the output it returns.
pub open spec fn step_contract(
    pre: CycleState,
    event: Event,
    post: CycleState,
    out: StepOutput,
) -> bool {
    // a cycle begins exactly on a tick received while idle
    &&& is_cycle_start(out) <==> (pre is Idle && event is Tick)
    // an unexpected event changes nothing and requests nothing
    &&& !event_expected(pre, event) ==> post == pre && out.action is None && !out.alert
        && out.error is None
    // a tick while idle: begin a cycle by requesting the balances
    &&& pre is Idle && event is Tick ==> post is AwaitingBalances && !out.alert
        && out.error is None
    // balances arrived: request the rate; a failed fetch ends the cycle
    // with a source error, and neither rate fetch nor push is requested
    &&& pre is AwaitingBalances ==> match event {
        Event::BalancesFetched(Ok(balances)) => post == CycleState::AwaitingRate(balances)
            && out.action == Some(Action::FetchRate) && !out.alert && out.error is None,
        Event::BalancesFetched(Err(m)) => post is Idle && out.action is None && !out.alert
            && out.error == Some(MonitorError::SourceUnavailable(m)),
        _ => true,
    }
    // the rate arrived: raise the alert exactly when the rate is below
    // the threshold, derive one push per record, and start pushing; a
    // failed fetch ends the cycle with a source error
    &&& match pre {
        CycleState::AwaitingRate(balances) => match event {
            Event::RateFetched(Ok(bps)) => out.alert == (bps < ALERT_THRESHOLD_BPS)
                && out.error is None && (balances@.len() == 0 ==> post is Idle
                && out.action is None) && (balances@.len() > 0 ==> (post matches
            CycleState::AwaitingPush(pushes, next) && push_items_match(pushes@, balances@, bps)
                && next == 1 && (out.action matches Some(Action::PushGrowth(a, g)) && a@
                == balances@[0].child_address@ && g == spec_growth_saturating(
                balances@[0].vault_amount,
                bps,
            )))),
            Event::RateFetched(Err(m)) => post is Idle && out.action is None && !out.alert
                && out.error == Some(MonitorError::SourceUnavailable(m)),
            _ => true,
        },
        _ => true,
    }
    // a push was acknowledged: a failure is recorded as a sink error, and
    // in either case the remaining items are still pushed, in order
    &&& match pre {
        CycleState::AwaitingPush(pushes, next) => match event {
            Event::GrowthPushed(res) => !out.alert && (res is Ok ==> out.error is None) && (
            res matches Err(m) ==> out.error == Some(MonitorError::SinkWriteFailed(m))) && (next
                < pushes@.len() ==> (post matches CycleState::AwaitingPush(rest, n2) && rest@
                == pushes@ && n2 == next + 1 && (out.action matches Some(Action::PushGrowth(a, g))
                && a@ == pushes@[next as int].account@ && g == pushes@[next as int].growth))) && (
            next == pushes@.len() ==> post is Idle && out.action is None),
            _ => true,
        },
        _ => true,
    }
}

fn derive_pushes(balances: &Vec<VaultBalance>, rate_bps: u64) -> (pushes: Vec<PushItem>)
    ensures
        push_items_match(pushes@, balances@, rate_bps),
{
    let mut pushes: Vec<PushItem> = Vec::new();
    let mut i: usize = 0;
    while i < balances.len()
        invariant
            i <= balances@.len(),
            pushes@.len() == i,
            forall|j: int|
                0 <= j < i ==> (#[trigger] pushes@[j]).account@ == balances@[j].child_address@
                    && pushes@[j].growth == spec_growth_saturating(
                    balances@[j].vault_amount,
                    rate_bps,
                ),
        decreases balances@.len() - i,
    {
        let account = balances[i].child_address.clone();
        let g = growth_saturating(balances[i].vault_amount, rate_bps);
        pushes.push(PushItem { account, growth: g });
        i += 1;
    }
    pushes
}

/// One transition of the machine: consume the state and the event that
/// arrived, return the next state and what the loop must do.
pub fn step(state: CycleState, event: Event) -> (r: (CycleState, StepOutput))
    requires
        state.wf(),
    ensures
        r.0.wf(),
        step_contract(state, event, r.0, r.1),
{
    match (state, event) {
        (CycleState::Idle, Event::Tick) => (
            CycleState::AwaitingBalances,
            StepOutput { action: Some(Action::FetchBalances), alert: false, error: None },
        ),
        (CycleState::AwaitingBalances, Event::BalancesFetched(res)) => match res {
            Ok(balances) => (
                CycleState::AwaitingRate(balances),
                StepOutput { action: Some(Action::FetchRate), alert: false, error: None },
            ),
            Err(m) => (
                CycleState::Idle,
                StepOutput {
                    action: None,
                    alert: false,
                    error: Some(MonitorError::SourceUnavailable(m)),
                },
            ),
        },
        (CycleState::AwaitingRate(balances), Event::RateFetched(res)) => match res {
            Ok(bps) => {
                let alert = rate_is_alert(bps);
                let pushes = derive_pushes(&balances, bps);
                if pushes.len() == 0 {
                    (CycleState::Idle, StepOutput { action: None, alert, error: None })
                } else {
                    let account = pushes[0].account.clone();
                    let g = pushes[0].growth;
                    (
                        CycleState::AwaitingPush(pushes, 1),
                        StepOutput {
                            action: Some(Action::PushGrowth(account, g)),
                            alert,
                            error: None,
                        },
                    )
                }
            },
            Err(m) => (
                CycleState::Idle,
                StepOutput {
                    action: None,
                    alert: false,
                    error: Some(MonitorError::SourceUnavailable(m)),
                },
            ),
        },
        (CycleState::AwaitingPush(pushes, next), Event::GrowthPushed(res)) => {
            let error = match res {
                Ok(_) => None,
                Err(m) => Some(MonitorError::SinkWriteFailed(m)),
            };
            if next < pushes.len() {
                let account = pushes[next].account.clone();
                let g = pushes[next].growth;
                (
                    CycleState::AwaitingPush(pushes, next + 1),
                    StepOutput { action: Some(Action::PushGrowth(account, g)), alert: false, error },
                )
            } else {
                (CycleState::Idle, StepOutput { action: None, alert: false, error })
            }
        },
        (st, _) => (st, StepOutput { action: None, alert: false, error: None }),
    }
}

/// The monitor: the startup configuration and the machine's state.
pub struct Monitor {
    pub config: MonitoringConfig,
    pub state: CycleState,
}

impl Monitor {
    /// A fresh monitor starts idle, waiting for the first tick.
    pub fn new(config: MonitoringConfig) -> (m: Monitor)
        ensures
            m.state is Idle,
            m.config == config,
    {
        Monitor { config, state: CycleState::Idle }
    }

    /// Feed one event to the machine. The configuration never changes;
    /// the state moves as `step_contract` says.
    pub fn handle(&mut self, event: Event) -> (out: StepOutput)
        requires
            old(self).state.wf(),
        ensures
            final(self).config == old(self).config,
            final(self).state.wf(),
            step_contract(old(self).state, event, final(self).state, out),
    {
        let mut st = CycleState::Idle;
        core::mem::swap(&mut st, &mut self.state);
        let (next, out) = step(st, event);
        self.state = next;
        out
    }
}

/// Number of timer ticks in a trace of events.
pub open spec fn count_ticks(events: Seq<Event>) -> int
    decreases events.len(),
{
    if events.len() == 0 {
        0
    } else {
        count_ticks(events.drop_last()) + if events.last() is Tick {
            1int
        } else {
            0int
        }
    }
}

/// Number of cycle starts among the outputs of a trace.
pub open spec fn count_cycle_starts(outs: Seq<StepOutput>) -> int
    decreases outs.len(),
{
    if outs.len() == 0 {
        0
    } else {
        count_cycle_starts(outs.drop_last()) + if is_cycle_start(outs.last()) {
            1int
        } else {
            0int
        }
    }
}

/// Timer fidelity, the discrete half: over any trace of transitions the
/// machine made, a cycle begins at most once per tick, since
/// `step_contract` makes every cycle start answer a tick. That each tick
/// arrives at most once per configured interval is the timer's own
/// promise, kept by the unverified loop around the library.
pub proof fn lemma_cycle_starts_bounded_by_ticks(events: Seq<Event>, outs: Seq<StepOutput>)
    requires
        events.len() == outs.len(),
        forall|i: int|
            0 <= i < outs.len() && is_cycle_start(#[trigger] outs[i]) ==> events[i] is Tick,
    ensures
        count_cycle_starts(outs) <= count_ticks(events),
    decreases events.len(),
{
    if events.len() > 0 {
        assert(forall|i: int|
            0 <= i < outs.len() - 1 ==> outs.drop_last()[i] == #[trigger] outs[i]);
        assert(forall|i: int|
            0 <= i < events.len() - 1 ==> events.drop_last()[i] == #[trigger] events[i]);
        lemma_cycle_starts_bounded_by_ticks(events.drop_last(), outs.drop_last());
    }
}

/// A failed balance fetch ends the cycle at once: the machine returns to
/// idle and requests nothing — no rate fetch and no push can follow in
/// that cycle — while the source error is reported and the machine stays
/// ready for the next tick.
pub proof fn lemma_source_failure_ends_cycle(
    event: Event,
    post: CycleState,
    out: StepOutput,
)
    requires
        step_contract(CycleState::AwaitingBalances, event, post, out),
        event matches Event::BalancesFetched(res) && res is Err,
    ensures
        post is Idle,
        out.action is None,
        out.error matches Some(MonitorError::SourceUnavailable(_)),
{
}

/// A failed push does not stop the cycle: while items remain, the next
/// item is pushed whatever the previous push reported.
pub proof fn lemma_push_failure_continues(
    pushes: Vec<PushItem>,
    next: usize,
    m: String,
    post: CycleState,
    out: StepOutput,
)
    requires
        step_contract(
            CycleState::AwaitingPush(pushes, next),
            Event::GrowthPushed(Err(m)),
            post,
            out,
        ),
        1 <= next < pushes@.len(),
    ensures
        out.action matches Some(Action::PushGrowth(a, g)) && a@ == pushes@[
            next as int
        ].account@ && g == pushes@[next as int].growth,
        post matches CycleState::AwaitingPush(rest, n2) && rest@ == pushes@ && n2 == next
            + 1,
        out.error == Some(MonitorError::SinkWriteFailed(m)),
{
}

/// The alert fires in a cycle exactly when the fetched rate lies below
/// the threshold.
pub proof fn lemma_alert_iff_rate_below_threshold(
    balances: Vec<VaultBalance>,
    bps: u64,
    post: CycleState,
    out: StepOutput,
)
    requires
        step_contract(CycleState::AwaitingRate(balances), Event::RateFetched(Ok(bps)), post, out),
    ensures
        out.alert == (bps < ALERT_THRESHOLD_BPS),
{
}

} // verus!
