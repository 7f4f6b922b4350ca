//! What became of the requests that are sent to other services.

use vstd::prelude::*;

verus! {

/// What became of a request.
pub enum Exchange {
    /// It was not sent, or its answer could not be read; with the reason.
    Failed(String),
    /// It was answered.
    Answered {
        /// The status says that the request was served.
        success: bool,
        /// The status, as it is written.
        status: String,
        /// The JSON of the answer.
        body: String,
    },
}

/// The JSON of an answer, or the reason why there is none. The reason names what
/// was asked for.
pub open spec fn served(exchange: Exchange, failure: Seq<char>) -> Result<Seq<char>, Seq<char>> {
    match exchange {
        Exchange::Failed(reason) => Err(reason@),
        Exchange::Answered { success, status, body } => if success {
            Ok(body@)
        } else {
            Err(failure + " "@ + status@ + ": "@ + body@)
        },
    }
}

/// Takes the JSON out of an answer, or reports that the request failed.
pub fn serve(exchange: Exchange, failure: &str) -> (r: Result<String, String>)
    ensures
        crate::record::outcome(r) == served(exchange, failure@),
{
    match exchange {
        Exchange::Failed(reason) => Err(reason),
        Exchange::Answered { success, status, body } => {
            if success {
                return Ok(body);
            }
            let mut e: String = failure.to_string();
            e.append(" ");
            e.append(status.as_str());
            e.append(": ");
            e.append(body.as_str());
            Err(e)
        },
    }
}

} // verus!
