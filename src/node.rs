//! What a liquidity node does with each swap message, and how a swap's
//! initiator recognises the replies to its own swap.
use vstd::prelude::*;

use crate::account::AccountId;
use crate::event::{Event, Execute, Quote, Request};
use crate::monitor::SwapMonitor;
use crate::registry::{rate_of, RateError, Ledger, Registry};

verus! {

/// A quote to publish as a swap action: from the node's liquidity account to
/// the request's source account, under the request's correlation context.
#[derive(Clone, Debug)]
pub struct QuoteReply {
    pub sender: AccountId,
    pub target: AccountId,
    pub quote: Quote,
    pub context: Vec<u8>,
}

/// Two correlation contexts are the same bytes.
pub fn same_context(a: &Vec<u8>, b: &Vec<u8>) -> (r: bool)
    ensures
        r == (a@ == b@),
{
    if a.len() != b.len() {
        return false;
    }
    let mut i: usize = 0;
    while i < a.len()
        invariant
            a@.len() == b@.len(),
            0 <= i <= a@.len(),
            forall|j: int| 0 <= j < i ==> a@[j] == b@[j],
        decreases a@.len() - i,
    {
        if a[i] != b[i] {
            return false;
        }
        i = i + 1;
    }
    assert(a@ =~= b@);
    true
}

impl Ledger {
    /// Answers a request whose accounts hold `from_currency` and
    /// `to_currency`: a node quotes only requests out of its own currency,
    /// at the registry's rate, naming the source node's liquidity account as
    /// intermediary.
    pub fn quote_request(
        &self,
        registry: &Registry,
        request: Request,
        from_currency: &str,
        to_currency: &str,
        context: Vec<u8>,
    ) -> (r: Result<Option<QuoteReply>, RateError>)
        requires
            registry.wf(),
        ensures
            from_currency@ != self.currency@ ==> r matches Ok(None),
            from_currency@ == self.currency@ ==> (r matches Ok(Some(_)) <==> rate_of(
                registry@,
                from_currency@,
                to_currency@,
            ) is Some),
            from_currency@ == self.currency@ ==> match r {
                Ok(Some(reply)) => {
                    &&& rate_of(registry@, from_currency@, to_currency@) == Some(reply.quote.rate)
                    &&& reply.quote.rate.wf()
                    &&& reply.quote.request == request
                    &&& reply.quote.intermediary == registry@[from_currency@].liquidity
                    &&& reply.sender == self.liquidity
                    &&& reply.target == request.from
                    &&& reply.context@ == context@
                },
                Ok(None) => false,
                Err(e) => {
                    &&& rate_of(registry@, from_currency@, to_currency@) is None
                    &&& (e == RateError::UnknownCurrency <==> !(registry@.contains_key(
                        from_currency@,
                    ) && registry@.contains_key(to_currency@)))
                },
            },
    {
        let own = String::from_str(from_currency);
        if !(own == self.currency) {
            return Ok(None);
        }
        let rate = registry.rate(from_currency, to_currency)?;
        let intermediary = match registry.get(from_currency) {
            Some(l) => l.liquidity,
            None => return Err(RateError::UnknownCurrency),
        };
        let quote = Quote { request, rate, intermediary };
        Ok(Some(QuoteReply { sender: self.liquidity, target: request.from, quote, context }))
    }
}

/// Arms a monitor for the event carried by a settled transfer under
/// `context`: `None` where the event is no execute directive; an error where
/// the target currency has no node.
pub fn monitor_for(
    registry: &Registry,
    event: Event,
    context: Vec<u8>,
    from_currency: String,
    to_currency: String,
) -> (r: Option<Result<SwapMonitor, RateError>>)
    ensures
        r is None <==> !(event is Execute),
        r matches Some(Err(e)) ==> e == RateError::UnknownCurrency && !registry@.contains_key(
            to_currency@,
        ),
        r matches Some(Ok(m)) ==> {
            &&& event == Event::Execute(m.execute)
            &&& m.state == crate::monitor::SwapState::Armed
            &&& m.context@ == context@
            &&& m.from_currency@ == from_currency@
            &&& m.to_currency@ == to_currency@
            &&& registry@.contains_key(to_currency@)
            &&& m.liquidity == registry@[to_currency@].liquidity
        },
{
    match event.as_execute() {
        Some(execute) => Some(SwapMonitor::new(registry, execute, context, from_currency, to_currency)),
        None => None,
    }
}

/// What a swap message means to the initiator of a swap.
#[derive(Clone, Copy, Debug, PartialEq, Eq, Structural)]
pub enum Reply {
    /// It belongs to another swap.
    OtherSwap,
    /// The quote of this swap.
    Quote(Quote),
    /// This swap is complete.
    Completed,
    /// It belongs to this swap but is neither a quote nor a completion, or
    /// its payload could not be read.
    Invalid,
}

/// The meaning of a message under `message_context`, whose payload read as
/// `event`, to the initiator of the swap under `context`.
pub open spec fn reply_of(context: Seq<u8>, message_context: Seq<u8>, event: Option<Event>) -> Reply {
    if context != message_context {
        Reply::OtherSwap
    } else {
        match event {
            Some(Event::Quote(q)) => Reply::Quote(q),
            Some(Event::Completed) => Reply::Completed,
            _ => Reply::Invalid,
        }
    }
}

/// Sorts a swap message for the initiator of the swap under `context`.
pub fn classify_reply(context: &Vec<u8>, message_context: &Vec<u8>, event: Option<Event>) -> (r:
    Reply)
    ensures
        r == reply_of(context@, message_context@, event),
{
    if !same_context(context, message_context) {
        return Reply::OtherSwap;
    }
    match event {
        Some(Event::Quote(q)) => Reply::Quote(q),
        Some(Event::Completed) => Reply::Completed,
        _ => Reply::Invalid,
    }
}

/// Every key of a registry is the currency of its node.
pub open spec fn keyed_by_currency(m: Map<Seq<char>, Ledger>) -> bool {
    forall|k: Seq<char>| m.contains_key(k) ==> (#[trigger] m[k]).currency@ == k
}

/// Of the nodes of a registry, exactly one quotes a request out of a
/// currency that the registry holds: the node of that currency.
pub proof fn lemma_one_quoting_node(registry: Registry, from_currency: Seq<char>)
    requires
        registry.wf(),
        registry@.contains_key(from_currency),
    ensures
        forall|k: Seq<char>|
            registry@.contains_key(k) ==> ((#[trigger] registry@[k]).currency@ == from_currency
                <==> k == from_currency),
{
    registry.lemma_keyed_by_currency();
}

/// A message of one swap is never taken for a reply of another: where the
/// contexts differ, the initiator sets it aside, whatever it holds.
pub proof fn lemma_contexts_isolate(context: Seq<u8>, other: Seq<u8>, event: Option<Event>)
    requires
        context != other,
    ensures
        reply_of(context, other, event) == Reply::OtherSwap,
{
}

} // verus!
