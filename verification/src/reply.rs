//! Answers to requests.

use vstd::prelude::*;

use crate::amount::Amount;
use crate::cash::CashEntry;
use crate::record::Record;
use crate::summary::TopExpense;
use crate::banks::TellerAccountRow;

verus! {

/// The kind of an answer: the HTTP statuses that are in use.
#[derive(Clone, Copy, Debug, PartialEq, Eq, Structural)]
pub enum Status {
    /// 200
    Fine,
    /// 201
    Created,
    /// 400
    BadRequest,
    /// 401
    Unauthorized,
    /// 404
    NotFound,
    /// 409
    Conflict,
    /// 422
    Unprocessable,
    /// 500
    Internal,
    /// 502
    BadGateway,
}

/// What an answer holds.
pub enum Body {
    /// What went wrong.
    Error(String),
    /// What was done.
    Message(String),
    /// That the service is up.
    Health(String),
    /// A token to sign requests with.
    Token(String),
    /// A bank was connected, with that many accounts.
    Connected { message: String, accounts: usize },
    /// Banks were synced, with that many transactions.
    Synced { message: String, imported: usize },
    /// The connected bank accounts.
    Accounts(Vec<TellerAccountRow>),
    /// The spending summary.
    Summary(String),
    /// The transactions.
    Transactions(Vec<Record>),
    /// A statement was read, with that many transactions.
    Uploaded { message: String, count: usize },
    /// What is spent in a month on average, and the largest expenses.
    Analytics { monthly_average: Amount, top_expenses: Vec<TopExpense> },
    /// What the assistant says.
    Reply(String),
    /// Which API key is set, and whether the assistant can be reached.
    Probe { key_preview: String, status: String },
    /// The profile of the user.
    Profile { email: String, phone: Option<String>, security_question: Option<String> },
    /// The cash entries, and the amounts that came in and that went out.
    Cash { entries: Vec<CashEntry>, income: Vec<Amount>, expense: Vec<Amount> },
}

/// An answer to a request.
pub struct Reply {
    pub status: Status,
    pub body: Body,
}

impl Reply {
    /// The answer reports a failure in these words.
    pub open spec fn refuses(self, status: Status, message: Seq<char>) -> bool {
        &&& self.status == status
        &&& self.body matches Body::Error(m) && m@ == message
    }

    /// The answer reports in these words what was done.
    pub open spec fn reports(self, status: Status, message: Seq<char>) -> bool {
        &&& self.status == status
        &&& self.body matches Body::Message(m) && m@ == message
    }

    /// An answer that reports a failure.
    pub fn refusal(status: Status, message: String) -> (r: Reply)
        ensures
            r.refuses(status, message@),
    {
        Reply { status, body: Body::Error(message) }
    }

    /// An answer that reports what was done.
    pub fn report(status: Status, message: String) -> (r: Reply)
        ensures
            r.reports(status, message@),
    {
        Reply { status, body: Body::Message(message) }
    }
}

/// The service is up.
pub fn health() -> (r: Reply)
    ensures
        r.status == Status::Fine,
        r.body matches Body::Health(m) && m@ == "ok"@,
{
    Reply { status: Status::Fine, body: Body::Health("ok".to_string()) }
}

} // verus!
