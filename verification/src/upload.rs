//! Uploading a statement.

use vstd::prelude::*;

use crate::assistant::Assistant;
use crate::reply::{Body, Reply, Status};
use crate::text::{count_text, decimal};

verus! {

/// The name of an upload that came without one.
pub const DEFAULT_NAME: &'static str = "upload.pdf";

/// The name of an upload.
pub fn upload_name(given: Option<String>) -> (r: String)
    ensures
        r@ == match given {
            Some(name) => name@,
            None => DEFAULT_NAME@,
        },
{
    match given {
        Some(name) => name,
        None => DEFAULT_NAME.to_string(),
    }
}

/// Where an upload of that name is kept while it is read.
pub fn temp_path(name: &str) -> (r: String)
    ensures
        r@ == "/tmp/"@ + name@,
{
    let mut r: String = "/tmp/".to_string();
    r.append(name);
    r
}

/// How far an upload came.
pub enum Upload {
    /// The request held no file.
    NoFile,
    /// The file did not arrive; with the reason.
    Unreadable(String),
    /// The file could not be kept; with the reason.
    Unwritten(String),
    /// No transactions could be read out of the file; with the reason.
    Unextracted(String),
    /// The transactions could not be saved; with the reason.
    Unsaved(String),
    /// That many transactions of the file of that name were saved.
    Saved { name: String, count: usize },
}

/// What stands between the name of a file without transactions and the name of
/// the assistant.
pub const OTHER_FORMATS: &'static str = ". If this isn't an Apple Card or Discover statement, \
     make sure ANTHROPIC_API_KEY is set — ";

/// How a file that was read is reported.
pub open spec fn upload_message(name: Seq<char>, count: int, assistant: Seq<char>) -> Seq<char> {
    if count == 0 {
        "No transactions found in "@ + name + OTHER_FORMATS@ + assistant
            + " is used to parse other formats."@
    } else {
        "Successfully processed "@ + decimal(count) + " transactions from "@ + name
    }
}

/// Answers an upload.
pub fn upload_reply(upload: Upload, assistant: &Assistant) -> (r: Reply)
    ensures
        match upload {
            Upload::NoFile => r.refuses(Status::BadRequest, "No file uploaded"@),
            Upload::Unreadable(e) => r.refuses(Status::BadRequest, e@),
            Upload::Unwritten(e) => r.refuses(Status::Internal, e@),
            Upload::Unextracted(e) => r.refuses(Status::Unprocessable, e@),
            Upload::Unsaved(e) => r.refuses(Status::Internal, e@),
            Upload::Saved { name, count } => r.status == Status::Fine && (
            r.body matches Body::Uploaded { message, count: n } && n == count && message@
                == upload_message(name@, count as int, assistant.name@)),
        },
{
    match upload {
        Upload::NoFile => Reply::refusal(Status::BadRequest, "No file uploaded".to_string()),
        Upload::Unreadable(e) => Reply::refusal(Status::BadRequest, e),
        Upload::Unwritten(e) => Reply::refusal(Status::Internal, e),
        Upload::Unextracted(e) => Reply::refusal(Status::Unprocessable, e),
        Upload::Unsaved(e) => Reply::refusal(Status::Internal, e),
        Upload::Saved { name, count } => {
            let mut message: String = String::new();
            if count == 0 {
                message.append("No transactions found in ");
                message.append(name.as_str());
                message.append(OTHER_FORMATS);
                message.append(assistant.name.as_str());
                message.append(" is used to parse other formats.");
            } else {
                message.append("Successfully processed ");
                message.append(count_text(count).as_str());
                message.append(" transactions from ");
                message.append(name.as_str());
            }
            assert(message@ =~= upload_message(name@, count as int, assistant.name@));
            Reply { status: Status::Fine, body: Body::Uploaded { message, count } }
        },
    }
}

} // verus!
