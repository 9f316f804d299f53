//! Mutations: their inputs and what each decides.

use vstd::prelude::*;

use super::error::{is_invalid_id, parse_id_argument, GraphqlError};
use crate::domain::expense::{Expense, ExpenseId, ExpenseSplit, SplitType};
use crate::domain::group::Group;
use crate::domain::invite::Invite;
use crate::domain::payment::Payment;
use crate::domain::user::User;
use crate::graphql::types::expense::split_type_text;
use crate::ids::{parse_id, parses_to, uuid_parse};

verus! {

/// The root of the mutations.
pub struct MutationRoot;

/// Input of `createUser`.
#[derive(Debug, Clone)]
pub struct CreateUserInput {
    pub username: String,
}

/// Input of `createGroup`.
#[derive(Debug, Clone)]
pub struct CreateGroupInput {
    pub name: String,
}

/// One user's share in the input of an expense; the user is given by the
/// text of its identifier.
#[derive(Debug, Clone)]
pub struct SplitInput {
    pub user_id: String,
    pub amount_owed: i64,
}

/// Input of `addExpense`.
#[derive(Debug, Clone)]
pub struct AddExpenseInput {
    pub group_id: String,
    pub description: Option<String>,
    pub amount: i64,
    pub currency: String,
    pub split_type: String,
    pub category_id: Option<String>,
    pub splits: Vec<SplitInput>,
}

/// Input of `settlePayment`.
#[derive(Debug, Clone)]
pub struct SettlePaymentInput {
    pub group_id: String,
    pub paid_to: String,
    pub amount: i64,
    pub currency: String,
    pub note: Option<String>,
}

/// Input of `editExpense`.
#[derive(Debug, Clone)]
pub struct EditExpenseInput {
    pub id: String,
    pub description: Option<String>,
    pub amount: i64,
    pub currency: String,
    pub split_type: String,
    pub category_id: Option<String>,
    pub splits: Vec<SplitInput>,
}

/// Input of `inviteMember`.
#[derive(Debug, Clone)]
pub struct InviteMemberInput {
    pub group_id: String,
    pub email: Option<String>,
    pub invited_user_id: Option<String>,
}

/// The answer to creating a group without an authenticated caller.
pub const CREATED_BY_MISSING: &'static str = "Not implemented: auth context required for created_by";

/// The answer to adding an expense or settling a payment without an authenticated caller.
pub const PAID_BY_MISSING: &'static str = "Not implemented: auth context required for paid_by";

/// The answer to inviting a member without an authenticated caller.
pub const INVITED_BY_MISSING: &'static str = "Not implemented: auth context required for invited_by";

/// The split type named by a text, if any.
pub open spec fn split_type_of_text(text: Seq<char>) -> Option<SplitType> {
    if text == "equal"@ {
        Some(SplitType::Equal)
    } else if text == "exact"@ {
        Some(SplitType::Exact)
    } else if text == "percentage"@ {
        Some(SplitType::Percentage)
    } else if text == "shares"@ {
        Some(SplitType::Shares)
    } else {
        None
    }
}

/// Reads the name of a split type.
pub fn parse_split_type(text: &String) -> (result: Option<SplitType>)
    ensures
        result == split_type_of_text(text@),
        result is Some <==> (text@ == "equal"@ || text@ == "exact"@ || text@ == "percentage"@ || text@
            == "shares"@),
        result matches Some(t) ==> split_type_text(t) == text@,
{
    if *text == String::from_str("equal") {
        Some(SplitType::Equal)
    } else if *text == String::from_str("exact") {
        Some(SplitType::Exact)
    } else if *text == String::from_str("percentage") {
        Some(SplitType::Percentage)
    } else if *text == String::from_str("shares") {
        Some(SplitType::Shares)
    } else {
        None
    }
}

/// Every split of an input names its user by a valid identifier.
pub open spec fn split_ids_valid(splits: Seq<SplitInput>) -> bool {
    forall|i: int| 0 <= i < splits.len() ==> (#[trigger] uuid_parse(splits[i].user_id@)) is Ok
}

/// The split that an input share gives for an expense.
pub open spec fn split_of_input(expense_id: ExpenseId, split: SplitInput) -> ExpenseSplit {
    ExpenseSplit {
        expense_id,
        user_id: uuid_parse(split.user_id@)->Ok_0,
        amount_owed: split.amount_owed,
    }
}

/// The expense that an edit makes of the stored one: identity, group, payer
/// and creation time are kept; the rest comes from the input; the update time
/// is `now` and the expense is not deleted.
pub open spec fn edited_expense(
    input: EditExpenseInput,
    expense_id: ExpenseId,
    existing: Expense,
    split_type: SplitType,
    now: i64,
) -> Expense {
    Expense {
        id: expense_id,
        group_id: existing.group_id,
        paid_by: existing.paid_by,
        description: input.description,
        amount: input.amount,
        currency: input.currency,
        split_type,
        category_id: input.category_id,
        created_at: existing.created_at,
        updated_at: Some(now),
        deleted_at: None,
    }
}

/// An edit gets as far as building the splits: the expense exists, the split
/// type is known and the clock could be read.
pub open spec fn edit_reaches_splits(
    input: EditExpenseInput,
    existing: Option<Expense>,
    clock_secs: Option<u64>,
) -> bool {
    existing is Some && split_type_of_text(input.split_type@) is Some && clock_secs is Some
}

impl MutationRoot {
    /// Creates a user named by the input, created now, with the fresh
    /// identifier drawn then. `fresh` is the clock read as seconds since the
    /// Unix epoch together with the identifier drawn after it (see `new_id`),
    /// or `None` where the clock reads an earlier time (no identifier is drawn
    /// then).
    pub fn create_user(&self, input: CreateUserInput, fresh: Option<(u64, u128)>) -> (result: Result<User, GraphqlError>)
        ensures
            match fresh {
                None => result == Err::<User, GraphqlError>(GraphqlError::ClockBeforeEpoch),
                Some((secs, id)) => result matches Ok(user) && user.id == id && user.username == input.username
                    && user.created_at == secs as i64,
            },
    {
        match fresh {
            None => Err(GraphqlError::ClockBeforeEpoch),
            Some((secs, id)) => {
                let now = secs as i64;
                let user = User { id, username: input.username, created_at: now };
                Ok(user)
            },
        }
    }

    /// Creating a group needs the creator, which only an authenticated caller
    /// could give: it always fails.
    pub fn create_group(&self, input: CreateGroupInput) -> (result: Result<Group, GraphqlError>)
        ensures
            result == Err::<Group, GraphqlError>(GraphqlError::NotImplemented(CREATED_BY_MISSING)),
    {
        Err(GraphqlError::NotImplemented(CREATED_BY_MISSING))
    }

    /// Adding an expense checks the group identifier, then fails for want of
    /// the payer, which only an authenticated caller could give.
    pub fn add_expense(&self, input: &AddExpenseInput) -> (result: Result<Expense, GraphqlError>)
        ensures
            uuid_parse(input.group_id@) is Err ==> (result matches Err(e) && is_invalid_id(e, input.group_id)),
            uuid_parse(input.group_id@) is Ok ==> result == Err::<Expense, GraphqlError>(
                GraphqlError::NotImplemented(PAID_BY_MISSING),
            ),
    {
        match parse_id_argument(&input.group_id) {
            Err(e) => Err(e),
            Ok(_group_id) => Err(GraphqlError::NotImplemented(PAID_BY_MISSING)),
        }
    }

    /// Settling a payment checks the group identifier, then the payee's,
    /// then fails for want of the payer.
    pub fn settle_payment(&self, input: &SettlePaymentInput) -> (result: Result<Payment, GraphqlError>)
        ensures
            uuid_parse(input.group_id@) is Err ==> (result matches Err(e) && is_invalid_id(e, input.group_id)),
            uuid_parse(input.group_id@) is Ok && uuid_parse(input.paid_to@) is Err ==> (result matches Err(e)
                && is_invalid_id(e, input.paid_to)),
            uuid_parse(input.group_id@) is Ok && uuid_parse(input.paid_to@) is Ok ==> result == Err::<
                Payment,
                GraphqlError,
            >(GraphqlError::NotImplemented(PAID_BY_MISSING)),
    {
        let _group_id = match parse_id_argument(&input.group_id) {
            Err(e) => return Err(e),
            Ok(id) => id,
        };
        let _paid_to = match parse_id_argument(&input.paid_to) {
            Err(e) => return Err(e),
            Ok(id) => id,
        };
        Err(GraphqlError::NotImplemented(PAID_BY_MISSING))
    }

    /// Inviting a member checks the group identifier, then fails for want of
    /// the inviter.
    pub fn invite_member(&self, input: &InviteMemberInput) -> (result: Result<Invite, GraphqlError>)
        ensures
            uuid_parse(input.group_id@) is Err ==> (result matches Err(e) && is_invalid_id(e, input.group_id)),
            uuid_parse(input.group_id@) is Ok ==> result == Err::<Invite, GraphqlError>(
                GraphqlError::NotImplemented(INVITED_BY_MISSING),
            ),
    {
        match parse_id_argument(&input.group_id) {
            Err(e) => Err(e),
            Ok(_group_id) => Err(GraphqlError::NotImplemented(INVITED_BY_MISSING)),
        }
    }

    /// The expense that an edit is about: the identifier in its input.
    pub fn edit_expense_target(&self, input: &EditExpenseInput) -> (result: Result<ExpenseId, GraphqlError>)
        ensures
            uuid_parse(input.id@) is Ok ==> result == Ok::<ExpenseId, GraphqlError>(uuid_parse(input.id@)->Ok_0),
            uuid_parse(input.id@) is Err ==> (result matches Err(e) && is_invalid_id(e, input.id)),
    {
        parse_id_argument(&input.id)
    }

    /// Applies an edit to the stored expense `existing` (`None` where there is
    /// none) with the identifier `expense_id`, at the time `clock_secs`
    /// (`None` where the clock reads a time before the Unix epoch). Gives the
    /// edited expense and its new splits, or the first error: a missing
    /// expense, an unknown split type, then the clock.
    /// Every split must name a valid user identifier where the edit gets as
    /// far as the splits.
    pub fn edit_expense(
        &self,
        input: EditExpenseInput,
        expense_id: ExpenseId,
        existing: Option<Expense>,
        clock_secs: Option<u64>,
    ) -> (result: Result<(Expense, Vec<ExpenseSplit>), GraphqlError>)
        requires
            edit_reaches_splits(input, existing, clock_secs) ==> split_ids_valid(input.splits@),
        ensures
            existing is None ==> result matches Err(GraphqlError::ExpenseNotFound),
            existing is Some && split_type_of_text(input.split_type@) is None ==> result == Err::<
                (Expense, Vec<ExpenseSplit>),
                GraphqlError,
            >(GraphqlError::InvalidSplitType(input.split_type)),
            existing is Some && split_type_of_text(input.split_type@) is Some && clock_secs is None
                ==> result matches Err(GraphqlError::ClockBeforeEpoch),
            edit_reaches_splits(input, existing, clock_secs) ==> (result matches Ok((expense, splits))
                && expense == edited_expense(
                input,
                expense_id,
                existing.unwrap(),
                split_type_of_text(input.split_type@).unwrap(),
                clock_secs.unwrap() as i64,
            ) && splits@.len() == input.splits@.len() && (forall|i: int|
                0 <= i < splits@.len() ==> #[trigger] splits@[i] == split_of_input(expense_id, input.splits@[i]))),
            result matches Ok((expense, splits)) ==> {
                &&& expense.id == expense_id
                &&& expense.group_id == existing.unwrap().group_id
                &&& expense.paid_by == existing.unwrap().paid_by
                &&& expense.created_at == existing.unwrap().created_at
                &&& expense.deleted_at is None
                &&& forall|i: int| 0 <= i < splits@.len() ==> (#[trigger] splits@[i]).expense_id == expense_id
            },
            result matches Ok((expense, splits)) ==> {
                &&& split_type_text(expense.split_type) == input.split_type@
                &&& expense.description == input.description
                &&& expense.amount == input.amount
                &&& expense.currency == input.currency
                &&& expense.category_id == input.category_id
                &&& expense.updated_at == Some(clock_secs.unwrap() as i64)
                &&& splits@.len() == input.splits@.len()
                &&& forall|i: int|
                    0 <= i < splits@.len() ==> (#[trigger] splits@[i]).amount_owed == input.splits@[i].amount_owed
                        && parses_to(input.splits@[i].user_id@, splits@[i].user_id)
            },
    {
        let existing = match existing {
            None => return Err(GraphqlError::ExpenseNotFound),
            Some(e) => e,
        };
        let split_type = match parse_split_type(&input.split_type) {
            None => return Err(GraphqlError::InvalidSplitType(input.split_type)),
            Some(t) => t,
        };
        proof {
            lemma_split_type_of_text_exact(input.split_type@);
        }
        let now = match clock_secs {
            None => return Err(GraphqlError::ClockBeforeEpoch),
            Some(secs) => secs as i64,
        };
        let splits = splits_from_input(expense_id, &input.splits);
        let expense = Expense {
            id: expense_id,
            group_id: existing.group_id,
            paid_by: existing.paid_by,
            description: input.description,
            amount: input.amount,
            currency: input.currency,
            split_type,
            category_id: input.category_id,
            created_at: existing.created_at,
            updated_at: Some(now),
            deleted_at: None,
        };
        Ok((expense, splits))
    }

    /// `edit_expense` where every split user identifier is valid; `None`
    /// where the edit gets as far as the splits and one of them is not (the
    /// edit then stops without an answer).
    pub fn try_edit_expense(
        &self,
        input: EditExpenseInput,
        expense_id: ExpenseId,
        existing: Option<Expense>,
        clock_secs: Option<u64>,
    ) -> (result: Option<Result<(Expense, Vec<ExpenseSplit>), GraphqlError>>)
        ensures
            result is None <==> edit_reaches_splits(input, existing, clock_secs) && !split_ids_valid(
                input.splits@,
            ),
            result matches Some(r) ==> (existing is None ==> r matches Err(GraphqlError::ExpenseNotFound)),
            result matches Some(r) ==> (existing is Some && split_type_of_text(input.split_type@) is None
                ==> r == Err::<(Expense, Vec<ExpenseSplit>), GraphqlError>(
                GraphqlError::InvalidSplitType(input.split_type),
            )),
            result matches Some(r) ==> (existing is Some && split_type_of_text(input.split_type@) is Some
                && clock_secs is None ==> r matches Err(GraphqlError::ClockBeforeEpoch)),
            result matches Some(r) ==> (edit_reaches_splits(input, existing, clock_secs) ==> (r matches Ok(
                (expense, splits),
            ) && expense == edited_expense(
                input,
                expense_id,
                existing.unwrap(),
                split_type_of_text(input.split_type@).unwrap(),
                clock_secs.unwrap() as i64,
            ) && splits@.len() == input.splits@.len() && (forall|i: int|
                0 <= i < splits@.len() ==> #[trigger] splits@[i] == split_of_input(
                    expense_id,
                    input.splits@[i],
                )))),
            result matches Some(Ok((expense, splits))) ==> {
                &&& expense.id == expense_id
                &&& expense.group_id == existing.unwrap().group_id
                &&& expense.paid_by == existing.unwrap().paid_by
                &&& expense.created_at == existing.unwrap().created_at
                &&& expense.deleted_at is None
                &&& split_type_text(expense.split_type) == input.split_type@
                &&& expense.description == input.description
                &&& expense.amount == input.amount
                &&& expense.currency == input.currency
                &&& expense.category_id == input.category_id
                &&& expense.updated_at == Some(clock_secs.unwrap() as i64)
                &&& splits@.len() == input.splits@.len()
                &&& forall|i: int|
                    0 <= i < splits@.len() ==> (#[trigger] splits@[i]).expense_id == expense_id
                        && splits@[i].amount_owed == input.splits@[i].amount_owed
                        && parses_to(input.splits@[i].user_id@, splits@[i].user_id)
            },
    {
        let reaches = existing.is_some() && parse_split_type(&input.split_type).is_some()
            && clock_secs.is_some();
        if reaches && !splits_valid(&input.splits) {
            return None;
        }
        Some(self.edit_expense(input, expense_id, existing, clock_secs))
    }
}

/// Whether every split names its user by a valid identifier.
pub fn splits_valid(splits: &Vec<SplitInput>) -> (valid: bool)
    ensures
        valid == split_ids_valid(splits@),
{
    let mut i: usize = 0;
    while i < splits.len()
        invariant
            i <= splits@.len(),
            forall|j: int| 0 <= j < i ==> (#[trigger] uuid_parse(splits@[j].user_id@)) is Ok,
        decreases splits@.len() - i,
    {
        if parse_id(splits[i].user_id.as_str()).is_err() {
            return false;
        }
        i = i + 1;
    }
    true
}

/// The splits of an expense that the input shares give, in order.
pub fn splits_from_input(expense_id: ExpenseId, splits: &Vec<SplitInput>) -> (result: Vec<ExpenseSplit>)
    requires
        split_ids_valid(splits@),
    ensures
        result@.len() == splits@.len(),
        forall|i: int| 0 <= i < result@.len() ==> #[trigger] result@[i] == split_of_input(expense_id, splits@[i]),
        forall|i: int|
            0 <= i < result@.len() ==> (#[trigger] result@[i]).expense_id == expense_id && result@[i].amount_owed
                == splits@[i].amount_owed && parses_to(splits@[i].user_id@, result@[i].user_id),
{
    let mut result: Vec<ExpenseSplit> = Vec::new();
    let mut i: usize = 0;
    while i < splits.len()
        invariant
            i <= splits@.len(),
            split_ids_valid(splits@),
            result@.len() == i,
            forall|j: int| 0 <= j < i ==> #[trigger] result@[j] == split_of_input(expense_id, splits@[j]),
            forall|j: int|
                0 <= j < i ==> (#[trigger] result@[j]).expense_id == expense_id && result@[j].amount_owed
                    == splits@[j].amount_owed && parses_to(splits@[j].user_id@, result@[j].user_id),
        decreases splits@.len() - i,
    {
        let split = &splits[i];
        assert(uuid_parse(splits@[i as int].user_id@) is Ok);
        let user_id = match parse_id(split.user_id.as_str()) {
            Ok(id) => id,
            Err(_) => {
                assert(false);
                0
            },
        };
        result.push(ExpenseSplit { expense_id, user_id, amount_owed: split.amount_owed });
        i = i + 1;
    }
    result
}

/// The name of every split type reads back as that split type.
pub proof fn lemma_split_type_text_round_trip(t: SplitType)
    ensures
        split_type_of_text(split_type_text(t)) == Some(t),
{
    reveal_strlit("equal");
    reveal_strlit("exact");
    reveal_strlit("percentage");
    reveal_strlit("shares");
    assert("equal"@[1] != "exact"@[1]);
    assert("equal"@.len() != "percentage"@.len());
    assert("equal"@.len() != "shares"@.len());
    assert("exact"@.len() != "percentage"@.len());
    assert("exact"@.len() != "shares"@.len());
    assert("percentage"@.len() != "shares"@.len());
}

/// A text that names a split type is the name of that split type.
pub proof fn lemma_split_type_of_text_exact(text: Seq<char>)
    ensures
        split_type_of_text(text) matches Some(t) ==> split_type_text(t) == text,
{
}

} // verus!
