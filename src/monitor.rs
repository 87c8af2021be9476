//! The swap monitor: the life of one swap from its execute directive to the
//! announcement of its completion.
use vstd::prelude::*;

use crate::account::AccountId;
use crate::decimal::{dec_opt, pow10, product_of, trunc, value_le, value_lt, whole_units, Dec};
use crate::event::Execute;
use crate::registry::{rate_of, RateError, Registry};

verus! {

/// Seconds between two polls of an armed monitor.
pub const POLL_INTERVAL_SECS: u64 = 10;

/// An instant as seconds and nanoseconds since the Unix epoch.
#[derive(Clone, Copy, Debug, PartialEq, Eq, Structural)]
pub struct Timestamp {
    pub secs: u64,
    pub nanos: u32,
}

/// The instant `now` lies after the whole second `valid_until`.
pub open spec fn deadline_passed(now: Timestamp, valid_until: u64) -> bool {
    now.secs > valid_until || (now.secs == valid_until && now.nanos > 0)
}

/// The rate lies in the band `[lower_limits, upper_limit)`.
pub open spec fn in_band(ex: Execute, rate: Dec) -> bool {
    value_le(ex.lower_limits@, rate@) && value_lt(rate@, ex.upper_limit@)
}

/// A stopping condition holds: the rate left the band, or the deadline passed.
pub open spec fn triggered(ex: Execute, rate: Dec, now: Timestamp) -> bool {
    !in_band(ex, rate) || deadline_passed(now, ex.valid_until)
}

/// The stage of one swap.
#[derive(Clone, Copy, Debug, PartialEq, Eq, Structural)]
pub enum SwapState {
    /// Watching the rate and the clock.
    Armed,
    /// The final transfer of this amount is being submitted.
    Transferring { amount: u64 },
    /// The transfer went through; the completion is being announced.
    Announcing,
    /// The swap is done.
    Completed,
    /// The swap was given up: its amount could not be computed, or a
    /// submission failed.
    Failed,
}

/// What happened to a swap.
#[derive(Clone, Copy, Debug, PartialEq, Eq, Structural)]
pub enum SwapEvent {
    /// A poll: the rate read now, if it could be read, and the time.
    Tick { rate: Option<Dec>, now: Timestamp },
    /// The final transfer was submitted.
    TransferSubmitted,
    /// The completion was announced.
    CompletionAnnounced,
    /// A submission failed.
    SubmissionFailed,
}

/// What the monitor asks its runner to do next.
#[derive(Clone, Copy, Debug, PartialEq, Eq, Structural)]
pub enum SwapAction {
    /// Nothing: wait for the next event.
    Wait,
    /// Submit one transfer of `amount` from `from` to `to`.
    Transfer { from: AccountId, to: AccountId, amount: u64 },
    /// Announce completion from `from` to `to`.
    AnnounceCompleted { from: AccountId, to: AccountId },
    /// The swap is done: stop.
    Finish,
    /// The swap failed: stop.
    Abort,
}

/// The amount that settles a swap at `rate`: `request.amount * rate`, with
/// its fraction dropped; `None` where the product fails, is negative or does
/// not fit a `u64`.
pub open spec fn settlement_amount(ex: Execute, rate: Dec) -> Option<u64> {
    whole_units(dec_opt(product_of(ex.request.amount@, rate@)))
}

/// One step of a swap monitor: from state `s`, on event `e`, to state `s2`
/// with action `a`. Where a stopping condition holds, the step transfers the
/// settlement amount, or gives up where there is none.
pub open spec fn transition(
    ex: Execute,
    liquidity: AccountId,
    s: SwapState,
    e: SwapEvent,
    s2: SwapState,
    a: SwapAction,
) -> bool {
    match s {
        SwapState::Armed => match e {
            SwapEvent::Tick { rate, now } => match rate {
                Some(x) => if triggered(ex, x, now) {
                    match settlement_amount(ex, x) {
                        Some(n) => s2 == (SwapState::Transferring { amount: n }) && a == (
                        SwapAction::Transfer { from: liquidity, to: ex.request.to, amount: n }),
                        None => s2 == SwapState::Failed && a == SwapAction::Abort,
                    }
                } else {
                    s2 == SwapState::Armed && a == SwapAction::Wait
                },
                None => s2 == SwapState::Armed && a == SwapAction::Wait,
            },
            _ => s2 == SwapState::Armed && a == SwapAction::Wait,
        },
        SwapState::Transferring { amount } => match e {
            SwapEvent::TransferSubmitted => s2 == SwapState::Announcing && a == (
            SwapAction::AnnounceCompleted { from: liquidity, to: ex.request.from }),
            SwapEvent::SubmissionFailed => s2 == SwapState::Failed && a == SwapAction::Abort,
            _ => s2 == s && a == SwapAction::Wait,
        },
        SwapState::Announcing => match e {
            SwapEvent::CompletionAnnounced => s2 == SwapState::Completed && a
                == SwapAction::Finish,
            SwapEvent::SubmissionFailed => s2 == SwapState::Failed && a == SwapAction::Abort,
            _ => s2 == s && a == SwapAction::Wait,
        },
        SwapState::Completed => s2 == s && a == SwapAction::Finish,
        SwapState::Failed => s2 == s && a == SwapAction::Abort,
    }
}

/// `states`, `events` and `actions` form a run of a monitor: it starts armed,
/// and event `i` takes it from `states[i]` to `states[i + 1]` with action `i`.
pub open spec fn is_run(
    ex: Execute,
    liquidity: AccountId,
    states: Seq<SwapState>,
    events: Seq<SwapEvent>,
    actions: Seq<SwapAction>,
) -> bool {
    &&& states.len() == events.len() + 1
    &&& actions.len() == events.len()
    &&& states[0] == SwapState::Armed
    &&& forall|i: int|
        0 <= i < events.len() ==> transition(
            ex,
            liquidity,
            states[i],
            #[trigger] events[i],
            states[i + 1],
            actions[i],
        )
}

/// How many transfers the actions ask for.
pub open spec fn transfers(actions: Seq<SwapAction>) -> nat
    decreases actions.len(),
{
    if actions.len() == 0 {
        0
    } else {
        transfers(actions.drop_last()) + if actions.last() is Transfer {
            1nat
        } else {
            0nat
        }
    }
}

/// How many completion announcements the actions ask for.
pub open spec fn announcements(actions: Seq<SwapAction>) -> nat
    decreases actions.len(),
{
    if actions.len() == 0 {
        0
    } else {
        announcements(actions.drop_last()) + if actions.last() is AnnounceCompleted {
            1nat
        } else {
            0nat
        }
    }
}

proof fn lemma_run_prefix(
    ex: Execute,
    liquidity: AccountId,
    states: Seq<SwapState>,
    events: Seq<SwapEvent>,
    actions: Seq<SwapAction>,
    k: int,
)
    requires
        is_run(ex, liquidity, states, events, actions),
        0 <= k <= events.len(),
    ensures
        transfers(actions.take(k)) <= 1,
        states[k] is Armed ==> transfers(actions.take(k)) == 0,
        announcements(actions.take(k)) <= 1,
        states[k] is Armed || states[k] is Transferring ==> announcements(actions.take(k)) == 0,
    decreases k,
{
    if k == 0 {
        assert(actions.take(0) =~= Seq::<SwapAction>::empty());
    } else {
        let i = k - 1;
        lemma_run_prefix(ex, liquidity, states, events, actions, i);
        assert(actions.take(k).drop_last() =~= actions.take(i));
        assert(actions.take(k).last() == actions[i]);
        assert(transition(ex, liquidity, states[i], events[i], states[i + 1], actions[i]));
    }
}

/// Whatever events a monitor takes, and whatever the decimal arithmetic gives,
/// it asks for at most one final transfer and at most one completion
/// announcement.
pub proof fn lemma_settles_at_most_once(
    ex: Execute,
    liquidity: AccountId,
    states: Seq<SwapState>,
    events: Seq<SwapEvent>,
    actions: Seq<SwapAction>,
)
    requires
        is_run(ex, liquidity, states, events, actions),
    ensures
        transfers(actions) <= 1,
        announcements(actions) <= 1,
{
    lemma_run_prefix(ex, liquidity, states, events, actions, events.len() as int);
    assert(actions.take(events.len() as int) =~= actions);
}

/// While every event is a poll whose rate, if read, lies inside the band and
/// comes before the deadline, a monitor stays armed and asks for nothing.
pub proof fn lemma_stays_armed(
    ex: Execute,
    liquidity: AccountId,
    states: Seq<SwapState>,
    events: Seq<SwapEvent>,
    actions: Seq<SwapAction>,
)
    requires
        is_run(ex, liquidity, states, events, actions),
        forall|i: int|
            0 <= i < events.len() ==> match #[trigger] events[i] {
                SwapEvent::Tick { rate, now } => rate matches Some(x) ==> !triggered(ex, x, now),
                _ => false,
            },
    ensures
        forall|i: int| 0 <= i < states.len() ==> #[trigger] states[i] == SwapState::Armed,
        forall|i: int| 0 <= i < actions.len() ==> #[trigger] actions[i] == SwapAction::Wait,
{
    assert forall|i: int| 0 <= i < states.len() implies #[trigger] states[i] == SwapState::Armed by {
        lemma_armed_prefix(ex, liquidity, states, events, actions, i);
    }
    assert forall|i: int| 0 <= i < actions.len() implies #[trigger] actions[i] == SwapAction::Wait by {
        lemma_armed_prefix(ex, liquidity, states, events, actions, i);
        assert(transition(ex, liquidity, states[i], events[i], states[i + 1], actions[i]));
    }
}

proof fn lemma_armed_prefix(
    ex: Execute,
    liquidity: AccountId,
    states: Seq<SwapState>,
    events: Seq<SwapEvent>,
    actions: Seq<SwapAction>,
    k: int,
)
    requires
        is_run(ex, liquidity, states, events, actions),
        forall|i: int|
            0 <= i < events.len() ==> match #[trigger] events[i] {
                SwapEvent::Tick { rate, now } => rate matches Some(x) ==> !triggered(ex, x, now),
                _ => false,
            },
        0 <= k <= events.len(),
    ensures
        states[k] == SwapState::Armed,
    decreases k,
{
    if k > 0 {
        lemma_armed_prefix(ex, liquidity, states, events, actions, k - 1);
        assert(transition(ex, liquidity, states[k - 1], events[k - 1], states[k], actions[k - 1]));
    }
}

proof fn lemma_pow10_pos(n: nat)
    ensures
        pow10(n) >= 1,
    decreases n,
{
    if n > 0 {
        lemma_pow10_pos((n - 1) as nat);
    }
}

proof fn lemma_trunc_nonneg(a: (int, nat))
    ensures
        a.0 >= 0 ==> trunc(a) >= 0,
{
    lemma_pow10_pos(a.1);
    if a.0 >= 0 {
        assert(a.0 / pow10(a.1) >= 0) by (nonlinear_arith)
            requires
                a.0 >= 0,
                pow10(a.1) >= 1,
        ;
    }
}

/// The monitor of one swap.
#[derive(Clone, Debug)]
pub struct SwapMonitor {
    pub execute: Execute,
    /// Correlation context of the swap, carried by every message it sends.
    pub context: Vec<u8>,
    /// Registry key of the source currency.
    pub from_currency: String,
    /// Registry key of the target currency.
    pub to_currency: String,
    /// Liquidity account of the target-currency node, which pays out.
    pub liquidity: AccountId,
    pub state: SwapState,
}

impl SwapMonitor {
    pub open spec fn wf(&self) -> bool {
        self.execute.wf()
    }

    /// Arms a monitor for an execute directive, once the currencies of its
    /// request are known; fails where the target currency has no node.
    pub fn new(
        registry: &Registry,
        execute: Execute,
        context: Vec<u8>,
        from_currency: String,
        to_currency: String,
    ) -> (r: Result<SwapMonitor, RateError>)
        ensures
            r is Err <==> !registry@.contains_key(to_currency@),
            r matches Err(e) ==> e == RateError::UnknownCurrency,
            r matches Ok(m) ==> {
                &&& m.state == SwapState::Armed
                &&& m.execute == execute
                &&& m.context@ == context@
                &&& m.from_currency@ == from_currency@
                &&& m.to_currency@ == to_currency@
                &&& m.liquidity == registry@[to_currency@].liquidity
            },
    {
        let liquidity = match registry.get(to_currency.as_str()) {
            Some(l) => l.liquidity,
            None => return Err(RateError::UnknownCurrency),
        };
        Ok(SwapMonitor { execute, context, from_currency, to_currency, liquidity, state: SwapState::Armed })
    }

    /// The stopping conditions for a rate read at `now`.
    pub fn is_triggered(&self, rate: &Dec, now: Timestamp) -> (r: bool)
        requires
            self.wf(),
            rate.wf(),
        ensures
            r == triggered(self.execute, *rate, now),
    {
        let in_band = self.execute.lower_limits.le(rate) && rate.lt(&self.execute.upper_limit);
        let late = now.secs > self.execute.valid_until || (now.secs == self.execute.valid_until
            && now.nanos > 0);
        !in_band || late
    }

    /// Settles an armed swap, given the product of its amount and the rate as
    /// decimal multiplication gave it: transfers its integer part, or gives
    /// up where there is none or it is negative or too large.
    pub fn settle(&mut self, product: Option<Dec>) -> (r: SwapAction)
        requires
            old(self).state == SwapState::Armed,
            product matches Some(p) ==> p.wf(),
        ensures
            final(self).execute == old(self).execute,
            final(self).context == old(self).context,
            final(self).liquidity == old(self).liquidity,
            final(self).from_currency == old(self).from_currency,
            final(self).to_currency == old(self).to_currency,
            match whole_units(product) {
                Some(n) => {
                    &&& r == (SwapAction::Transfer {
                        from: old(self).liquidity,
                        to: old(self).execute.request.to,
                        amount: n,
                    })
                    &&& final(self).state == (SwapState::Transferring { amount: n })
                },
                None => r == SwapAction::Abort && final(self).state == SwapState::Failed,
            },
    {
        let amount = match product {
            Some(p) => p.to_u64(),
            None => None,
        };
        match amount {
            Some(n) => {
                self.state = SwapState::Transferring { amount: n };
                SwapAction::Transfer { from: self.liquidity, to: self.execute.request.to, amount: n }
            },
            None => {
                self.state = SwapState::Failed;
                SwapAction::Abort
            },
        }
    }

    /// Takes one event and says what to do next.
    pub fn step(&mut self, event: SwapEvent) -> (r: SwapAction)
        requires
            old(self).wf(),
            event matches SwapEvent::Tick { rate: Some(x), .. } ==> x.wf(),
        ensures
            final(self).wf(),
            final(self).execute == old(self).execute,
            final(self).context == old(self).context,
            final(self).liquidity == old(self).liquidity,
            final(self).from_currency == old(self).from_currency,
            final(self).to_currency == old(self).to_currency,
            transition(
                old(self).execute,
                old(self).liquidity,
                old(self).state,
                event,
                final(self).state,
                r,
            ),
            r is Transfer ==> old(self).state is Armed && final(self).state is Transferring,
            r is AnnounceCompleted ==> old(self).state is Transferring && final(self).state is Announcing,
            final(self).state is Armed ==> old(self).state is Armed,
            final(self).state is Transferring ==> old(self).state is Armed || old(self).state is Transferring,
    {
        match self.state {
            SwapState::Armed => match event {
                SwapEvent::Tick { rate: Some(x), now } => {
                    if self.is_triggered(&x, now) {
                        let product = self.execute.request.amount.checked_mul(&x);
                        proof {
                            if let Some(p) = product {
                                lemma_trunc_nonneg(p@);
                            }
                        }
                        self.settle(product)
                    } else {
                        SwapAction::Wait
                    }
                },
                _ => SwapAction::Wait,
            },
            SwapState::Transferring { .. } => match event {
                SwapEvent::TransferSubmitted => {
                    self.state = SwapState::Announcing;
                    SwapAction::AnnounceCompleted { from: self.liquidity, to: self.execute.request.from }
                },
                SwapEvent::SubmissionFailed => {
                    self.state = SwapState::Failed;
                    SwapAction::Abort
                },
                _ => SwapAction::Wait,
            },
            SwapState::Announcing => match event {
                SwapEvent::CompletionAnnounced => {
                    self.state = SwapState::Completed;
                    SwapAction::Finish
                },
                SwapEvent::SubmissionFailed => {
                    self.state = SwapState::Failed;
                    SwapAction::Abort
                },
                _ => SwapAction::Wait,
            },
            SwapState::Completed => SwapAction::Finish,
            SwapState::Failed => SwapAction::Abort,
        }
    }

    /// One poll: reads the rate between the swap's currencies from the
    /// registry, a failed read skipping the poll, and steps on it.
    pub fn tick(&mut self, registry: &Registry, now: Timestamp) -> (r: SwapAction)
        requires
            old(self).wf(),
            registry.wf(),
        ensures
            final(self).wf(),
            final(self).execute == old(self).execute,
            final(self).context == old(self).context,
            final(self).liquidity == old(self).liquidity,
            final(self).from_currency == old(self).from_currency,
            final(self).to_currency == old(self).to_currency,
            transition(
                old(self).execute,
                old(self).liquidity,
                old(self).state,
                SwapEvent::Tick {
                    rate: rate_of(registry@, old(self).from_currency@, old(self).to_currency@),
                    now,
                },
                final(self).state,
                r,
            ),
    {
        let rate = match registry.rate(self.from_currency.as_str(), self.to_currency.as_str()) {
            Ok(x) => Some(x),
            Err(_) => None,
        };
        self.step(SwapEvent::Tick { rate, now })
    }
}

} // verus!
