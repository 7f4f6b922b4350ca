//! Whose rows the statements name.
//!
//! What is stated here is of the text and the parameters of statements: that the
//! condition on the user stands in the text, and that its parameter is the user.
//! What the database makes of the text is not. One statement goes by the number
//! of a row alone: noting how far an account was synced, where the row was found
//! among those of the user.

use vstd::prelude::*;

use crate::banks::{enrollment, new_account, AccountView, TellerEnrollRequest};
use crate::cash::{new_entry, CashEntryRequest};
use crate::record::RecordView;
use crate::store::{
    for_user, for_user_twice, owned, save, ParamView, StatementView, ALSO_USERS_OWN, USERS_OWN,
};
use crate::summary::{
    law_spending_queries_hold_the_condition, summary_statements, BIGGEST, BIGGEST_END, BY_CATEGORY,
    BY_CATEGORY_END, BY_CATEGORY_MIDDLE, BY_MONTH, BY_MONTH_END, SPENDING, TOP_MERCHANTS,
    TOP_MERCHANTS_END, TOTALS,
};
use crate::text::{occurs_at, occurs_in};

verus! {

/// The text of the statement holds the condition that a row is the user's, and the
/// parameter that the condition refers to is the user.
pub open spec fn names_user(s: StatementView, user: i64) -> bool {
    ||| {
        &&& occurs_in(s.sql, USERS_OWN@)
        &&& s.params.len() > 0
        &&& s.params[0] == ParamView::Integer(user)
    }
    ||| {
        &&& occurs_in(s.sql, ALSO_USERS_OWN@)
        &&& s.params.len() > 1
        &&& s.params[1] == ParamView::Integer(user)
    }
}

/// Every statement that is made about what is the user's names that user in its
/// condition, and no other, whatever stands around the condition.
pub proof fn law_queries_name_their_user(
    head: Seq<char>,
    middle: Seq<char>,
    tail: Seq<char>,
    user: i64,
    other: i64,
)
    ensures
        names_user(for_user(head, tail, user), other) <==> other == user,
        names_user(for_user_twice(head, middle, tail, user), other) <==> other == user,
{
    lemma_stands_between(head, USERS_OWN@, tail);
    lemma_stands_between(head, USERS_OWN@, middle + USERS_OWN@ + tail);
}

/// Each of the statements that the summary of a user is made of names that user in
/// its condition, and no other, and holds the condition that leaves payments out.
pub proof fn law_summary_names_user_and_spending(user: i64, other: i64)
    ensures
        forall|i: int|
            0 <= i < summary_statements(user).len() ==> {
                &&& names_user(#[trigger] summary_statements(user)[i], other) <==> other == user
                &&& occurs_in(summary_statements(user)[i].sql, "category != 'payment'"@)
            },
{
    law_queries_name_their_user(TOTALS@ + SPENDING@, ""@, ""@, user, other);
    law_spending_queries_hold_the_condition(TOTALS@, ""@, ""@, user);
    law_queries_name_their_user(BY_MONTH@ + SPENDING@, ""@, BY_MONTH_END@, user, other);
    law_spending_queries_hold_the_condition(BY_MONTH@, ""@, BY_MONTH_END@, user);
    law_queries_name_their_user(
        BY_CATEGORY@ + SPENDING@,
        BY_CATEGORY_MIDDLE@ + SPENDING@,
        BY_CATEGORY_END@,
        user,
        other,
    );
    law_spending_queries_hold_the_condition(BY_CATEGORY@, BY_CATEGORY_MIDDLE@, BY_CATEGORY_END@, user);
    law_queries_name_their_user(TOP_MERCHANTS@ + SPENDING@, ""@, TOP_MERCHANTS_END@, user, other);
    law_spending_queries_hold_the_condition(TOP_MERCHANTS@, ""@, TOP_MERCHANTS_END@, user);
    law_queries_name_their_user(BIGGEST@ + SPENDING@, ""@, BIGGEST_END@, user, other);
    law_spending_queries_hold_the_condition(BIGGEST@, ""@, BIGGEST_END@, user);
}

/// Every statement that is made about one row of a user names that user in its
/// condition.
pub proof fn law_changes_name_their_user(head: Seq<char>, id: i64, user: i64)
    ensures
        names_user(owned(head, id, user), user),
{
    lemma_stands_between(head, ALSO_USERS_OWN@, Seq::<char>::empty());
    assert(head + ALSO_USERS_OWN@ + Seq::<char>::empty() =~= head + ALSO_USERS_OWN@);
}

/// Every statement that adds a row for a user has that user as the parameter of
/// the owner.
pub proof fn law_additions_name_their_user(
    user: i64,
    record: RecordView,
    entry: CashEntryRequest,
    request: TellerEnrollRequest,
    created_at: Seq<char>,
    enrollment_row: i64,
    account: AccountView,
)
    ensures
        save(record, Some(user)).params[4] == ParamView::Integer(user),
        new_entry(user, entry).params[0] == ParamView::Integer(user),
        enrollment(user, request, created_at).params[0] == ParamView::Integer(user),
        new_account(enrollment_row, user, account).params[1] == ParamView::Integer(user),
{
}

proof fn lemma_stands_between(head: Seq<char>, part: Seq<char>, tail: Seq<char>)
    ensures
        occurs_in(head + part + tail, part),
{
    let whole = head + part + tail;
    assert(whole.subrange(head.len() as int, (head.len() + part.len()) as int) =~= part);
    assert(occurs_at(whole, part, head.len() as int));
}

} // verus!
