//! The balance objects.

use vstd::prelude::*;

use crate::domain::balance::{NetBalance, PairwiseBalance};
use crate::ids::{id_text, uuid_text};

verus! {

/// A net balance as returned by the API.
pub struct NetBalanceType(pub NetBalance);

impl From<NetBalance> for NetBalanceType {
    fn from(b: NetBalance) -> (t: Self)
        ensures
            t.0 == b,
    {
        NetBalanceType(b)
    }
}

impl vstd::std_specs::convert::FromSpecImpl<NetBalance> for NetBalanceType {
    open spec fn obeys_from_spec() -> bool {
        true
    }

    open spec fn from_spec(b: NetBalance) -> Self {
        NetBalanceType(b)
    }
}

/// The object made of a net balance shows that balance unchanged: the same
/// user, currency and net amount.
pub proof fn lemma_net_balance_shown_unchanged(b: NetBalance)
    ensures
        <NetBalanceType as vstd::std_specs::convert::FromSpec<NetBalance>>::from_spec(b).0.net_amount == b.net_amount,
        <NetBalanceType as vstd::std_specs::convert::FromSpec<NetBalance>>::from_spec(b).0.user_id == b.user_id,
        <NetBalanceType as vstd::std_specs::convert::FromSpec<NetBalance>>::from_spec(b).0.currency == b.currency,
        <NetBalanceType as vstd::std_specs::convert::FromSpec<NetBalance>>::from_spec(b).0.group_id == b.group_id,
{
}

impl NetBalanceType {
    /// The text of the user's identifier.
    pub fn user_id(&self) -> (text: String)
        ensures
            text@ == uuid_text(self.0.user_id),
    {
        id_text(self.0.user_id)
    }

    /// The currency code.
    pub fn currency(&self) -> (text: &str)
        ensures
            text@ == self.0.currency@,
    {
        self.0.currency.as_str()
    }

    /// The net amount, in minor units.
    pub fn net_amount(&self) -> (value: i64)
        ensures
            value == self.0.net_amount,
    {
        self.0.net_amount
    }
}

/// A pairwise balance as returned by the API.
pub struct PairwiseBalanceType(pub PairwiseBalance);

impl From<PairwiseBalance> for PairwiseBalanceType {
    fn from(b: PairwiseBalance) -> (t: Self)
        ensures
            t.0 == b,
    {
        PairwiseBalanceType(b)
    }
}

impl vstd::std_specs::convert::FromSpecImpl<PairwiseBalance> for PairwiseBalanceType {
    open spec fn obeys_from_spec() -> bool {
        true
    }

    open spec fn from_spec(b: PairwiseBalance) -> Self {
        PairwiseBalanceType(b)
    }
}

/// The object made of a pairwise balance shows that balance unchanged: the
/// same debtor, creditor, currency and amount.
pub proof fn lemma_pairwise_balance_shown_unchanged(b: PairwiseBalance)
    ensures
        <PairwiseBalanceType as vstd::std_specs::convert::FromSpec<PairwiseBalance>>::from_spec(b).0.from_user == b.from_user,
        <PairwiseBalanceType as vstd::std_specs::convert::FromSpec<PairwiseBalance>>::from_spec(b).0.to_user == b.to_user,
        <PairwiseBalanceType as vstd::std_specs::convert::FromSpec<PairwiseBalance>>::from_spec(b).0.currency == b.currency,
        <PairwiseBalanceType as vstd::std_specs::convert::FromSpec<PairwiseBalance>>::from_spec(b).0.amount == b.amount,
{
}

impl PairwiseBalanceType {
    /// The currency code.
    pub fn currency(&self) -> (text: &str)
        ensures
            text@ == self.0.currency@,
    {
        self.0.currency.as_str()
    }

    /// The amount owed, in minor units.
    pub fn amount(&self) -> (value: i64)
        ensures
            value == self.0.amount,
    {
        self.0.amount
    }
}

} // verus!
