use split_server::domain::category::Category;
use split_server::domain::currency::Currency;
use split_server::domain::expense::{Expense, ExpenseSplit, SplitType};
use split_server::domain::group::{Group, GroupMember, GroupRole};
use split_server::domain::invite::{Invite, InviteStatus};
use split_server::domain::balance::{NetBalance, PairwiseBalance};
use split_server::domain::payment::Payment;
use split_server::domain::user::User;
use split_server::graphql::error::{parse_id_argument, GraphqlError};
use split_server::graphql::loaders::user_loader::{index_users, UserLoader};
use split_server::graphql::mutation::{
    parse_split_type, AddExpenseInput, CreateGroupInput, CreateUserInput, EditExpenseInput, InviteMemberInput,
    MutationRoot, SettlePaymentInput, SplitInput,
};
use split_server::graphql::query::QueryRoot;
use split_server::ids::new_id;
use split_server::graphql::types::balance::{NetBalanceType, PairwiseBalanceType};
use split_server::graphql::types::category::CategoryType;
use split_server::graphql::types::currency::CurrencyType;
use split_server::graphql::types::expense::{ExpenseSplitType, ExpenseType};
use split_server::graphql::types::group::{GroupMemberType, GroupType};
use split_server::graphql::types::invite::InviteType;
use split_server::graphql::types::payment::PaymentType;
use split_server::graphql::types::user::UserType;

const G: &str = "00000000-0000-0000-0000-00000000000a";
const U1: &str = "00000000-0000-0000-0000-000000000001";
const U2: &str = "00000000-0000-0000-0000-000000000002";

fn stored_expense() -> Expense {
    Expense {
        id: 0x55,
        group_id: 0x0a,
        paid_by: 0x01,
        description: Some("old".to_string()),
        amount: 100,
        currency: "EUR".to_string(),
        split_type: SplitType::Equal,
        category_id: None,
        created_at: 1000,
        updated_at: None,
        deleted_at: None,
    }
}

fn edit_input(split_type: &str, splits: Vec<(&str, i64)>) -> EditExpenseInput {
    EditExpenseInput {
        id: "00000000-0000-0000-0000-000000000055".to_string(),
        description: Some("dinner".to_string()),
        amount: 3000,
        currency: "USD".to_string(),
        split_type: split_type.to_string(),
        category_id: Some("food".to_string()),
        splits: splits.into_iter().map(|(u, a)| SplitInput { user_id: u.to_string(), amount_owed: a }).collect(),
    }
}

#[test]
fn split_type_names_parse_back() {
    assert_eq!(parse_split_type(&"equal".to_string()), Some(SplitType::Equal));
    assert_eq!(parse_split_type(&"exact".to_string()), Some(SplitType::Exact));
    assert_eq!(parse_split_type(&"percentage".to_string()), Some(SplitType::Percentage));
    assert_eq!(parse_split_type(&"shares".to_string()), Some(SplitType::Shares));
    assert_eq!(parse_split_type(&"Equal".to_string()), None);
    assert_eq!(parse_split_type(&"".to_string()), None);
    for t in [SplitType::Equal, SplitType::Exact, SplitType::Percentage, SplitType::Shares] {
        let mut e = stored_expense();
        e.split_type = t;
        let name = ExpenseType::from(e).split_type().to_string();
        assert_eq!(parse_split_type(&name), Some(t));
    }
}

#[test]
fn invite_statuses_have_distinct_names() {
    let names: Vec<&str> = [InviteStatus::Pending, InviteStatus::Accepted, InviteStatus::Declined, InviteStatus::Expired]
        .into_iter()
        .map(|status| {
            InviteType::from(Invite {
                id: 1,
                group_id: 2,
                invited_by: 3,
                email: None,
                invited_user_id: None,
                status,
                token: "t".to_string(),
                expires_at: None,
                created_at: 0,
            })
            .status()
        })
        .collect();
    assert_eq!(names, vec!["pending", "accepted", "declined", "expired"]);
}

#[test]
fn edit_expense_keeps_identity_and_takes_input() {
    let input = edit_input("exact", vec![(U1, 1000), (U2, 2000)]);
    let m = MutationRoot;
    let id = m.edit_expense_target(&input).unwrap();
    assert_eq!(id, 0x55);
    let (e, splits) = m.edit_expense(input, id, Some(stored_expense()), Some(5000)).unwrap();
    assert_eq!((e.id, e.group_id, e.paid_by, e.created_at), (0x55, 0x0a, 0x01, 1000));
    assert_eq!(e.description.as_deref(), Some("dinner"));
    assert_eq!((e.amount, e.currency.as_str(), e.split_type), (3000, "USD", SplitType::Exact));
    assert_eq!(e.category_id.as_deref(), Some("food"));
    assert_eq!((e.updated_at, e.deleted_at), (Some(5000), None));
    assert_eq!(splits.len(), 2);
    assert_eq!((splits[0].expense_id, splits[0].user_id, splits[0].amount_owed), (0x55, 1, 1000));
    assert_eq!((splits[1].expense_id, splits[1].user_id, splits[1].amount_owed), (0x55, 2, 2000));
}

#[test]
fn edit_expense_errors_come_in_order() {
    let m = MutationRoot;
    assert!(matches!(m.edit_expense(edit_input("bogus", vec![]), 0x55, None, None), Err(GraphqlError::ExpenseNotFound)));
    match m.edit_expense(edit_input("bogus", vec![]), 0x55, Some(stored_expense()), None) {
        Err(GraphqlError::InvalidSplitType(t)) => assert_eq!(t, "bogus"),
        other => panic!("unexpected {:?}", other.err()),
    }
    assert!(matches!(m.edit_expense(edit_input("equal", vec![]), 0x55, Some(stored_expense()), None), Err(GraphqlError::ClockBeforeEpoch)));
    let bad = EditExpenseInput { id: "xyz".to_string(), ..edit_input("equal", vec![]) };
    match m.edit_expense_target(&bad) {
        Err(GraphqlError::InvalidId { text, reason }) => {
            assert_eq!(text, "xyz");
            assert_eq!(reason, uuid::Uuid::parse_str("xyz").unwrap_err().to_string());
        },
        other => panic!("unexpected {:?}", other),
    }
}

#[test]
fn edit_expense_with_bad_split_user_stops() {
    let m = MutationRoot;
    assert!(m.try_edit_expense(edit_input("equal", vec![(U1, 1), ("nope", 2)]), 0x55, Some(stored_expense()), Some(1)).is_none());
    // Errors that come before the splits are still answered.
    let r = m.try_edit_expense(edit_input("equal", vec![("nope", 2)]), 0x55, None, Some(1)).unwrap();
    assert!(matches!(r, Err(GraphqlError::ExpenseNotFound)));
    let r = m.try_edit_expense(edit_input("shares", vec![(U2, 9)]), 0x55, Some(stored_expense()), Some(7)).unwrap();
    let (e, splits) = r.unwrap();
    assert_eq!((e.split_type, e.updated_at, splits[0].user_id), (SplitType::Shares, Some(7), 2));
}

#[test]
fn error_messages() {
    assert_eq!(GraphqlError::ExpenseNotFound.message().unwrap(), "Expense not found");
    assert_eq!(GraphqlError::InvalidSplitType("x".to_string()).message().unwrap(), "Invalid split_type: x");
    assert_eq!(MutationRoot.create_group(CreateGroupInput { name: "g".to_string() }).unwrap_err().message().unwrap(),
        "Not implemented: auth context required for created_by");
    assert_eq!(QueryRoot.me().unwrap_err().message().unwrap(), "Not implemented: auth context required");
    let e = GraphqlError::InvalidId { text: "x".to_string(), reason: "bad".to_string() };
    assert_eq!(e.message().unwrap(), "bad");
    assert!(GraphqlError::ClockBeforeEpoch.message().is_none());
}

#[test]
fn mutations_without_caller_check_ids_then_fail() {
    let m = MutationRoot;
    let add = AddExpenseInput {
        group_id: G.to_string(),
        description: None,
        amount: 1,
        currency: "USD".to_string(),
        split_type: "equal".to_string(),
        category_id: None,
        splits: vec![],
    };
    assert_eq!(m.add_expense(&add).unwrap_err().message().unwrap(), "Not implemented: auth context required for paid_by");
    let bad_add = AddExpenseInput { group_id: "g".to_string(), ..add };
    assert!(matches!(m.add_expense(&bad_add), Err(GraphqlError::InvalidId { text, .. }) if text == "g"));

    let pay = SettlePaymentInput { group_id: G.to_string(), paid_to: U1.to_string(), amount: 5, currency: "USD".to_string(), note: None };
    assert_eq!(m.settle_payment(&pay).unwrap_err().message().unwrap(), "Not implemented: auth context required for paid_by");
    let bad_to = SettlePaymentInput { paid_to: "p".to_string(), ..pay };
    assert!(matches!(m.settle_payment(&bad_to), Err(GraphqlError::InvalidId { text, .. }) if text == "p"));
    let bad_both = SettlePaymentInput { group_id: "g".to_string(), ..bad_to };
    assert!(matches!(m.settle_payment(&bad_both), Err(GraphqlError::InvalidId { text, .. }) if text == "g"));

    let inv = InviteMemberInput { group_id: G.to_string(), email: Some("a@b.c".to_string()), invited_user_id: None };
    assert_eq!(m.invite_member(&inv).unwrap_err().message().unwrap(), "Not implemented: auth context required for invited_by");
    let bad_inv = InviteMemberInput { group_id: "".to_string(), ..inv };
    assert!(matches!(m.invite_member(&bad_inv), Err(GraphqlError::InvalidId { text, .. }) if text.is_empty()));
}

#[test]
fn create_user_takes_name_clock_and_id() {
    let u = MutationRoot.create_user(CreateUserInput { username: "ann".to_string() }, Some((1_700_000_000, 0x1234))).unwrap();
    assert_eq!((u.id, u.username.as_str(), u.created_at), (0x1234, "ann", 1_700_000_000));
    let id = new_id(1_700_000_000_123, &[1, 2, 3, 4, 5, 6, 7, 8, 9, 10]);
    let v = MutationRoot.create_user(CreateUserInput { username: "bob".to_string() }, Some((5, id))).unwrap();
    assert_eq!(v.id, id);
    let u = MutationRoot.create_user(CreateUserInput { username: "x".to_string() }, Some((u64::MAX, 1))).unwrap();
    assert_eq!(u.created_at, -1);
    assert!(matches!(MutationRoot.create_user(CreateUserInput { username: "x".to_string() }, None), Err(GraphqlError::ClockBeforeEpoch)));
}

#[test]
fn id_arguments_parse() {
    assert_eq!(parse_id_argument(&U2.to_string()).unwrap(), 2);
    assert!(matches!(parse_id_argument(&"2".to_string()), Err(GraphqlError::InvalidId { text, .. }) if text == "2"));
}

#[test]
fn index_users_keeps_last_of_each_id() {
    let users = vec![
        User { id: 1, username: "a".to_string(), created_at: 0 },
        User { id: 2, username: "b".to_string(), created_at: 0 },
        User { id: 1, username: "c".to_string(), created_at: 0 },
    ];
    let index = index_users(users);
    assert_eq!(index.len(), 2);
    assert_eq!(index[&1].username, "c");
    assert_eq!(index[&2].username, "b");
    assert!(index_users(vec![]).is_empty());
    let loader = UserLoader::new(17u32);
    assert_eq!(*loader.repos(), 17);
}

#[test]
fn object_fields_read_their_entity() {
    let u = UserType::from(User { id: 1, username: "ann".to_string(), created_at: 9 });
    assert_eq!((u.id(), u.username(), u.created_at()), ("00000000-0000-0000-0000-000000000001".to_string(), "ann", 9));

    let g = GroupType::from(Group { id: 0x0a, name: "Trip".to_string(), created_by: 2, created_at: 3 });
    assert_eq!((g.id(), g.name(), g.created_by(), g.created_at()), (G.to_string(), "Trip", U2.to_string(), 3));

    let m = GroupMemberType::from(GroupMember { group_id: 0x0a, user_id: 1, role: GroupRole::Admin, joined_at: 4 });
    assert_eq!((m.user_id(), m.role(), m.joined_at()), (U1.to_string(), "admin", 4));
    let m = GroupMemberType::from(GroupMember { group_id: 0x0a, user_id: 1, role: GroupRole::Member, joined_at: 4 });
    assert_eq!(m.role(), "member");

    let e = ExpenseType::from(stored_expense());
    assert_eq!((e.id(), e.group_id(), e.description(), e.amount(), e.currency(), e.split_type()),
        ("00000000-0000-0000-0000-000000000055".to_string(), G.to_string(), Some("old"), 100, "EUR", "equal"));
    assert_eq!((e.category_id(), e.created_at(), e.updated_at()), (None, 1000, None));

    let s = ExpenseSplitType::from(ExpenseSplit { expense_id: 0x55, user_id: 2, amount_owed: 50 });
    assert_eq!((s.user_id(), s.amount_owed()), (U2.to_string(), 50));

    let p = PaymentType::from(Payment { id: 0x0b, group_id: 0x0a, paid_by: 1, paid_to: 2, amount: 70, currency: "GBP".to_string(), note: Some("rent".to_string()), created_at: 8 });
    assert_eq!((p.id(), p.group_id(), p.amount(), p.currency(), p.note(), p.created_at()),
        ("00000000-0000-0000-0000-00000000000b".to_string(), G.to_string(), 70, "GBP", Some("rent"), 8));

    let i = InviteType::from(Invite { id: 0x0c, group_id: 0x0a, invited_by: 1, email: Some("x@y.z".to_string()), invited_user_id: Some(2), status: InviteStatus::Pending, token: "tok".to_string(), expires_at: Some(99), created_at: 5 });
    assert_eq!(i.invited_user_id(), Some(2));
    assert_eq!((i.id(), i.group_id(), i.email(), i.status(), i.token(), i.expires_at(), i.created_at()),
        ("00000000-0000-0000-0000-00000000000c".to_string(), G.to_string(), Some("x@y.z"), "pending", "tok", Some(99), 5));

    let n = NetBalanceType::from(NetBalance { group_id: 0x0a, user_id: 1, currency: "USD".to_string(), net_amount: -30 });
    assert_eq!((n.user_id(), n.currency(), n.net_amount()), (U1.to_string(), "USD", -30));
    let pw = PairwiseBalanceType::from(PairwiseBalance { group_id: 0x0a, from_user: 1, to_user: 2, currency: "USD".to_string(), amount: 30 });
    assert_eq!((pw.currency(), pw.amount()), ("USD", 30));

    let c = CategoryType::from(Category { id: "food".to_string(), name: "Food".to_string(), icon: None });
    assert_eq!((c.id(), c.name(), c.icon()), ("food", "Food", None));
    let cu = CurrencyType::from(Currency { code: "JPY".to_string(), name: "Yen".to_string(), symbol: "¥".to_string(), minor_unit: 0 });
    assert_eq!((cu.code(), cu.name(), cu.symbol(), cu.minor_unit()), ("JPY", "Yen", "¥", 0));
}
