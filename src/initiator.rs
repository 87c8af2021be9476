//! The initiator's side of a swap: the request, the execute directive that
//! accepts a quote, and the transfer that carries it.
use vstd::prelude::*;

use crate::account::AccountId;
use crate::decimal::{
    dec_opt, difference_of, product_of, sum_of, whole_units, Dec, MAX_MANTISSA, MAX_SCALE,
};
use crate::event::{Execute, Quote, Request};
use crate::monitor::Timestamp;

verus! {

/// How long an execute directive stays valid when no duration is given, in seconds.
pub const DEFAULT_VALID_FOR: u64 = 300;

/// A request for `amount` minor units of an account whose currency has
/// `decimals` digits after the point; `None` where `decimals` exceeds 28.
pub fn new_request(from: AccountId, to: AccountId, amount: u64, decimals: u32) -> (r: Option<Request>)
    ensures
        r is Some <==> decimals <= MAX_SCALE,
        r matches Some(q) ==> {
            &&& q.wf()
            &&& q.from == from
            &&& q.to == to
            &&& q.amount@ == (amount as int, decimals as nat)
        },
{
    assert(amount as i128 <= MAX_MANTISSA);
    match Dec::from_parts(amount as i128, decimals) {
        Some(d) => Some(Request { from, to, amount: d }),
        None => None,
    }
}

/// The last second at which a directive made at `now` is valid.
pub open spec fn deadline_of(now: Timestamp, valid_for: Option<u64>) -> int {
    now.secs + match valid_for {
        Some(v) => v as int,
        None => DEFAULT_VALID_FOR as int,
    }
}

/// The execute directive that accepts `quote` with `margin` at `now`, or
/// `None` where the deadline or the decimal arithmetic overflows.
pub open spec fn execute_of(quote: Quote, margin: Dec, now: Timestamp, valid_for: Option<u64>) -> Option<Execute> {
    let up = dec_opt(sum_of((1, 0), margin@));
    let down = dec_opt(difference_of((1, 0), margin@));
    if deadline_of(now, valid_for) > u64::MAX || up is None || down is None {
        None
    } else {
        let upper = dec_opt(product_of(up.unwrap()@, quote.rate@));
        let lower = dec_opt(product_of(down.unwrap()@, quote.rate@));
        if upper is None || lower is None {
            None
        } else {
            Some(Execute {
                request: quote.request,
                valid_until: deadline_of(now, valid_for) as u64,
                upper_limit: upper.unwrap(),
                lower_limits: lower.unwrap(),
            })
        }
    }
}

/// The execute directive that accepts a quote with a margin: the band is
/// `[(1 - margin) * rate, (1 + margin) * rate)`, valid for `valid_for`
/// seconds after `now` (five minutes where none is given). `None` where the
/// deadline or the arithmetic overflows.
pub fn accept_quote(quote: &Quote, margin: Dec, now: Timestamp, valid_for: Option<u64>) -> (r:
    Option<Execute>)
    requires
        quote.wf(),
        margin.wf(),
    ensures
        r == execute_of(*quote, margin, now, valid_for),
        r matches Some(e) ==> e.wf(),
{
    let period = match valid_for {
        Some(v) => v,
        None => DEFAULT_VALID_FOR,
    };
    let valid_until = now.secs.checked_add(period)?;
    let one = Dec::one();
    let upper = one.checked_add(&margin)?.checked_mul(&quote.rate)?;
    let lower = one.checked_sub(&margin)?.checked_mul(&quote.rate)?;
    Some(Execute { request: quote.request, valid_until, upper_limit: upper, lower_limits: lower })
}

/// The amount that the initiator transfers to the intermediary when it
/// accepts a quote: `rate * amount`, its fraction dropped; `None` where that
/// overflows or is negative or too large.
pub fn quoted_amount(quote: &Quote) -> (r: Option<u64>)
    requires
        quote.wf(),
    ensures
        r == whole_units(dec_opt(product_of(quote.rate@, quote.request.amount@))),
{
    match quote.rate.checked_mul(&quote.request.amount) {
        Some(p) => p.to_u64(),
        None => None,
    }
}

} // verus!
