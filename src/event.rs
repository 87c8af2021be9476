//! The events of one swap: request, quote, execute directive, completion.
use vstd::prelude::*;

use crate::account::AccountId;
use crate::decimal::Dec;

verus! {

/// A swap request: convert `amount` from the currency of `from` into that of `to`.
#[derive(Clone, Copy, Debug, PartialEq, Eq, Structural)]
pub struct Request {
    pub from: AccountId,
    pub to: AccountId,
    pub amount: Dec,
}

/// A priced answer to a request, from the node of its source currency.
#[derive(Clone, Copy, Debug, PartialEq, Eq, Structural)]
pub struct Quote {
    pub request: Request,
    pub rate: Dec,
    /// Liquidity account of the source-currency node.
    pub intermediary: AccountId,
}

/// The commitment that lets a node settle a swap on its own, within a rate
/// band and before a deadline.
#[derive(Clone, Copy, Debug, PartialEq, Eq, Structural)]
pub struct Execute {
    pub request: Request,
    /// Seconds since the Unix epoch after which the swap settles at any rate.
    pub valid_until: u64,
    /// The swap settles as soon as the rate reaches this value.
    pub upper_limit: Dec,
    /// The swap settles as soon as the rate falls below this value.
    pub lower_limits: Dec,
}

/// The payload of every swap message.
#[derive(Clone, Copy, Debug, PartialEq, Eq, Structural)]
pub enum Event {
    Request(Request),
    Quote(Quote),
    Execute(Execute),
    Completed,
}

impl Request {
    pub open spec fn wf(&self) -> bool {
        self.amount.wf()
    }
}

impl Quote {
    pub open spec fn wf(&self) -> bool {
        self.request.wf() && self.rate.wf()
    }
}

impl Execute {
    pub open spec fn wf(&self) -> bool {
        self.request.wf() && self.upper_limit.wf() && self.lower_limits.wf()
    }
}

impl Event {
    pub open spec fn wf(&self) -> bool {
        match self {
            Event::Request(r) => r.wf(),
            Event::Quote(q) => q.wf(),
            Event::Execute(e) => e.wf(),
            Event::Completed => true,
        }
    }

    /// The request that this event carries, if it is one.
    pub fn as_request(&self) -> (r: Option<Request>)
        ensures
            r == (match self {
                Event::Request(q) => Some(*q),
                _ => None::<Request>,
            }),
    {
        match self {
            Event::Request(q) => Some(*q),
            _ => None,
        }
    }

    /// The execute directive that this event carries, if it is one.
    pub fn as_execute(&self) -> (r: Option<Execute>)
        ensures
            r == (match self {
                Event::Execute(e) => Some(*e),
                _ => None::<Execute>,
            }),
    {
        match self {
            Event::Execute(e) => Some(*e),
            _ => None,
        }
    }
}

} // verus!
