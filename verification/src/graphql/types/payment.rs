//! The payment object.

use vstd::prelude::*;

use super::text::{optional_text, shows_text};
use crate::domain::payment::Payment;
use crate::ids::{id_text, uuid_text};

verus! {

/// A payment as returned by the API.
pub struct PaymentType(pub Payment);

impl From<Payment> for PaymentType {
    fn from(p: Payment) -> (t: Self)
        ensures
            t.0 == p,
    {
        PaymentType(p)
    }
}

impl vstd::std_specs::convert::FromSpecImpl<Payment> for PaymentType {
    open spec fn obeys_from_spec() -> bool {
        true
    }

    open spec fn from_spec(p: Payment) -> Self {
        PaymentType(p)
    }
}

impl PaymentType {
    /// The text of the payment's identifier.
    pub fn id(&self) -> (text: String)
        ensures
            text@ == uuid_text(self.0.id),
    {
        id_text(self.0.id)
    }

    /// The text of the group's identifier.
    pub fn group_id(&self) -> (text: String)
        ensures
            text@ == uuid_text(self.0.group_id),
    {
        id_text(self.0.group_id)
    }

    /// The amount, in minor units.
    pub fn amount(&self) -> (value: i64)
        ensures
            value == self.0.amount,
    {
        self.0.amount
    }

    /// The currency code.
    pub fn currency(&self) -> (text: &str)
        ensures
            text@ == self.0.currency@,
    {
        self.0.currency.as_str()
    }

    /// The note, if any.
    pub fn note(&self) -> (text: Option<&str>)
        ensures
            shows_text(text, self.0.note),
    {
        optional_text(&self.0.note)
    }

    /// When the payment was made.
    pub fn created_at(&self) -> (value: i64)
        ensures
            value == self.0.created_at,
    {
        self.0.created_at
    }
}

} // verus!
