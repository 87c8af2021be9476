//! Provisioning helpers: the demonstration rate table, the choice of
//! currencies, and the access rules granted to liquidity and user accounts.
use vstd::prelude::*;

use crate::account::AccountId;
use crate::decimal::Dec;
use crate::registry::{currency_key, lower_of};

verus! {

/// The base rate that provisioning writes for a currency key.
pub open spec fn base_rate_of(key: Seq<char>) -> (int, nat) {
    if key == "usd"@ {
        (1, 0)
    } else if key == "eur"@ {
        (9, 1)
    } else if key == "btc"@ {
        (43, 6)
    } else {
        (5, 1)
    }
}

/// The demonstration base rate of a currency, of any case: one for USD,
/// 0.9 for EUR, 0.000043 for BTC and 0.5 for any other.
pub fn rate_for(currency: &str) -> (r: Dec)
    ensures
        r.wf(),
        r@ == base_rate_of(lower_of(currency@)),
{
    let key = currency_key(currency);
    if key == String::from_str("usd") {
        Dec { mantissa: 1, scale: 0 }
    } else if key == String::from_str("eur") {
        Dec { mantissa: 9, scale: 1 }
    } else if key == String::from_str("btc") {
        Dec { mantissa: 43, scale: 6 }
    } else {
        Dec { mantissa: 5, scale: 1 }
    }
}

/// An account of the ledger is wanted where its currency, in lower case, is
/// one of the requested codes.
pub fn is_requested(code: &str, currencies: &Vec<String>) -> (r: bool)
    ensures
        r == exists|i: int| 0 <= i < currencies@.len() && (#[trigger] currencies@[i])@ == lower_of(code@),
{
    let key = currency_key(code);
    let mut i: usize = 0;
    while i < currencies.len()
        invariant
            0 <= i <= currencies@.len(),
            key@ == lower_of(code@),
            forall|j: int| 0 <= j < i ==> (#[trigger] currencies@[j])@ != lower_of(code@),
        decreases currencies@.len() - i,
    {
        if currencies[i] == key {
            return true;
        }
        i = i + 1;
    }
    false
}

/// Which demonstration users get an account in a currency: the first user
/// in the first requested currency, the second in the second.
pub fn user_accounts(code: &str, currencies: &Vec<String>) -> (r: (bool, bool))
    requires
        currencies@.len() >= 2,
    ensures
        r.0 == (lower_of(code@) == lower_of(currencies@[0]@)),
        r.1 == (lower_of(code@) == lower_of(currencies@[1]@)),
{
    let key = currency_key(code);
    let first = currency_key(currencies[0].as_str());
    let second = currency_key(currencies[1].as_str());
    (key == first, key == second)
}

/// The document collection that a rule governs.
#[derive(Clone, Copy, Debug, PartialEq, Eq, Structural)]
pub enum RuleCollection {
    /// Account documents.
    Accounts,
    /// Ledger accounts.
    LedgerAccounts,
}

/// An access right.
#[derive(Clone, Copy, Debug, PartialEq, Eq, Structural)]
pub enum Verb {
    Read,
    Transact,
}

/// A rule of a role: the verbs allowed on the listed instances of a
/// collection, or on all of them where none is listed.
#[derive(Clone, Debug)]
pub struct AccessRule {
    pub collection: RuleCollection,
    pub instance_keys: Vec<AccountId>,
    pub verbs: Vec<Verb>,
}

/// Read and transact on the account documents of `accounts`.
pub fn can_read_and_transact_accounts(accounts: Vec<AccountId>) -> (r: AccessRule)
    ensures
        r.collection == RuleCollection::Accounts,
        r.instance_keys@ == accounts@,
        r.verbs@ == seq![Verb::Read, Verb::Transact],
{
    AccessRule {
        collection: RuleCollection::Accounts,
        instance_keys: accounts,
        verbs: vec![Verb::Read, Verb::Transact],
    }
}

/// Read and transact on the ledger accounts `accounts`.
pub fn can_read_and_transact_ledger_accounts(accounts: Vec<AccountId>) -> (r: AccessRule)
    ensures
        r.collection == RuleCollection::LedgerAccounts,
        r.instance_keys@ == accounts@,
        r.verbs@ == seq![Verb::Read, Verb::Transact],
{
    AccessRule {
        collection: RuleCollection::LedgerAccounts,
        instance_keys: accounts,
        verbs: vec![Verb::Read, Verb::Transact],
    }
}

/// Read on every ledger account.
pub fn can_read_all_ledger_accounts() -> (r: AccessRule)
    ensures
        r.collection == RuleCollection::LedgerAccounts,
        r.instance_keys@.len() == 0,
        r.verbs@ == seq![Verb::Read],
{
    AccessRule { collection: RuleCollection::LedgerAccounts, instance_keys: Vec::new(), verbs: vec![Verb::Read] }
}

/// Read on every account document.
pub fn can_read_all_accounts() -> (r: AccessRule)
    ensures
        r.collection == RuleCollection::Accounts,
        r.instance_keys@.len() == 0,
        r.verbs@ == seq![Verb::Read],
{
    AccessRule { collection: RuleCollection::Accounts, instance_keys: Vec::new(), verbs: vec![Verb::Read] }
}

} // verus!
