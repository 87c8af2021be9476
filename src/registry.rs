//! The rate registry: one liquidity node per currency, and the rate between
//! two currencies as the ratio of their base rates.
use vstd::prelude::*;

use crate::account::{parse_account, AccountId, AccountIdError};
use crate::decimal::{dec_opt, quotient_of, Dec};

verus! {

/// A currency code as the registry keys it: lower case.
pub uninterp spec fn lower_of(s: Seq<char>) -> Seq<char>;

/// Relies on `str::to_lowercase`: the result depends on the characters alone,
/// and an empty text stays empty.
#[verifier::external_body]
fn lowercase(s: &str) -> (r: String)
    ensures
        r@ == lower_of(s@),
        s@.len() == 0 ==> r@.len() == 0,
{
    s.to_lowercase()
}

/// The registry key of a currency code.
pub fn currency_key(code: &str) -> (r: String)
    ensures
        r@ == lower_of(code@),
{
    lowercase(code)
}

/// The liquidity node of one currency.
#[derive(Clone, Debug)]
pub struct Ledger {
    /// Currency code, lower case.
    pub currency: String,
    /// The node's liquidity account.
    pub liquidity: AccountId,
    /// Value of one unit of the currency in the common reference unit.
    pub base_rate: Dec,
}

impl Ledger {
    /// The node of `currency`, whose liquidity account is written in
    /// hexadecimal. The account's structural validity for the ledger is
    /// checked where the node's client is built.
    pub fn new(currency: &str, account: &str, base_rate: Dec) -> (r: Result<Ledger, AccountIdError>)
        ensures
            match (r, parse_account(account@)) {
                (Ok(l), Ok(a)) => l.currency@ == lower_of(currency@) && l.liquidity == a
                    && l.base_rate == base_rate,
                (Err(e), Err(f)) => e == f,
                _ => false,
            },
    {
        let liquidity = AccountId::from_hex(account)?;
        Ok(Ledger { currency: lowercase(currency), liquidity, base_rate })
    }
}

/// Why no rate could be given.
#[derive(Clone, Copy, Debug, PartialEq, Eq, Structural)]
pub enum RateError {
    /// One of the two currencies has no node in the registry.
    UnknownCurrency,
    /// The division of the base rates failed: a zero base rate, or an overflow.
    InvalidRate,
}

/// The registry that a sequence of nodes makes, a later node of a currency
/// replacing an earlier one.
pub open spec fn map_of(s: Seq<Ledger>) -> Map<Seq<char>, Ledger>
    decreases s.len(),
{
    if s.len() == 0 {
        Map::empty()
    } else {
        map_of(s.drop_last()).insert(s.last().currency@, s.last())
    }
}

/// The rate from one currency to another: the base rate of the target
/// divided by that of the source; `None` where a currency is missing or the
/// division fails.
pub open spec fn rate_of(m: Map<Seq<char>, Ledger>, from: Seq<char>, to: Seq<char>) -> Option<Dec> {
    if m.contains_key(from) && m.contains_key(to) {
        dec_opt(quotient_of(m[to].base_rate@, m[from].base_rate@))
    } else {
        None
    }
}

/// Every base rate in a registry is a well-formed decimal.
pub open spec fn rates_wf(m: Map<Seq<char>, Ledger>) -> bool {
    forall|k: Seq<char>| m.contains_key(k) ==> (#[trigger] m[k]).base_rate.wf()
}

/// Currency code to liquidity node, read-only once built.
#[derive(Clone, Debug)]
pub struct Registry {
    ledgers: Vec<Ledger>,
}

impl View for Registry {
    type V = Map<Seq<char>, Ledger>;

    closed spec fn view(&self) -> Map<Seq<char>, Ledger> {
        map_of(self.ledgers@)
    }
}

proof fn lemma_map_of_prefix(s: Seq<Ledger>, i: int, k: Seq<char>)
    requires
        0 <= i <= s.len(),
        forall|j: int| i <= j < s.len() ==> (#[trigger] s[j]).currency@ != k,
    ensures
        map_of(s).contains_key(k) == map_of(s.take(i)).contains_key(k),
        map_of(s).contains_key(k) ==> map_of(s)[k] == map_of(s.take(i))[k],
    decreases s.len() - i,
{
    if i < s.len() {
        lemma_map_of_prefix(s.drop_last(), i, k);
        assert(s.drop_last().take(i) =~= s.take(i));
    } else {
        assert(s.take(i) =~= s);
    }
}

proof fn lemma_map_of_keys(s: Seq<Ledger>)
    ensures
        forall|k: Seq<char>| map_of(s).contains_key(k) ==> (#[trigger] map_of(s)[k]).currency@ == k,
    decreases s.len(),
{
    if s.len() > 0 {
        lemma_map_of_keys(s.drop_last());
        assert forall|k: Seq<char>| map_of(s).contains_key(k) implies (#[trigger] map_of(s)[k]).currency@
            == k by {
            if k != s.last().currency@ {
                assert(map_of(s.drop_last()).contains_key(k));
            }
        }
    }
}

impl Registry {
    pub open spec fn wf(&self) -> bool {
        rates_wf(self@)
    }

    /// Every node of the registry stands under its own currency.
    pub proof fn lemma_keyed_by_currency(&self)
        ensures
            forall|k: Seq<char>| self@.contains_key(k) ==> (#[trigger] self@[k]).currency@ == k,
    {
        lemma_map_of_keys(self.ledgers@);
    }

    /// An empty registry.
    pub fn new() -> (r: Registry)
        ensures
            r@ == Map::<Seq<char>, Ledger>::empty(),
            r.wf(),
    {
        Registry { ledgers: Vec::new() }
    }

    /// Adds the node of a currency, replacing any earlier node of it.
    pub fn insert(&mut self, ledger: Ledger)
        requires
            old(self).wf(),
            ledger.base_rate.wf(),
        ensures
            final(self)@ == old(self)@.insert(ledger.currency@, ledger),
            final(self).wf(),
    {
        self.ledgers.push(ledger);
        proof {
            assert(self.ledgers@.drop_last() =~= old(self).ledgers@);
        }
    }

    /// The node of a currency, by its registry key.
    pub fn get(&self, currency: &str) -> (r: Option<&Ledger>)
        ensures
            r is Some <==> self@.contains_key(currency@),
            r matches Some(l) ==> *l == self@[currency@],
    {
        let key = String::from_str(currency);
        let n = self.ledgers.len();
        let mut i: usize = n;
        while i > 0
            invariant
                0 <= i <= n,
                n == self.ledgers@.len(),
                key@ == currency@,
                forall|j: int| i <= j < n ==> (#[trigger] self.ledgers@[j]).currency@ != currency@,
            decreases i,
        {
            let l = &self.ledgers[i - 1];
            if l.currency == key {
                proof {
                    let s = self.ledgers@;
                    lemma_map_of_prefix(s, i as int, currency@);
                    assert(s.take(i as int).drop_last() =~= s.take(i as int - 1));
                    assert(s.take(i as int).last() == s[i as int - 1]);
                }
                return Some(l);
            }
            i = i - 1;
        }
        proof {
            lemma_map_of_prefix(self.ledgers@, 0, currency@);
            assert(self.ledgers@.take(0) =~= Seq::<Ledger>::empty());
        }
        None
    }

    /// The rate from `from` to `to`: `base_rate(to) / base_rate(from)`.
    pub fn rate(&self, from: &str, to: &str) -> (r: Result<Dec, RateError>)
        requires
            self.wf(),
        ensures
            r == Err::<Dec, RateError>(RateError::UnknownCurrency) <==> !(self@.contains_key(from@)
                && self@.contains_key(to@)),
            r == Err::<Dec, RateError>(RateError::InvalidRate) <==> (self@.contains_key(from@)
                && self@.contains_key(to@) && rate_of(self@, from@, to@) is None),
            r matches Ok(q) ==> q.wf() && rate_of(self@, from@, to@) == Some(q),
            r is Ok <==> rate_of(self@, from@, to@) is Some,
            self@.contains_key(from@) && self@.contains_key(to@) && self@[from@].base_rate.mantissa
                == 0 ==> r == Err::<Dec, RateError>(RateError::InvalidRate),
    {
        let from_ledger = match self.get(from) {
            Some(l) => l,
            None => return Err(RateError::UnknownCurrency),
        };
        let to_ledger = match self.get(to) {
            Some(l) => l,
            None => return Err(RateError::UnknownCurrency),
        };
        match to_ledger.base_rate.checked_div(&from_ledger.base_rate) {
            Some(q) => Ok(q),
            None => Err(RateError::InvalidRate),
        }
    }
}

} // verus!
