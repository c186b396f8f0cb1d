//! Responses of the route: the one owed for the outcome of a blocking
//! completion call, and the refusal of a request.

use vstd::prelude::*;
use vstd::string::*;

verus! {

/// Status code of a successful response.
pub const STATUS_OK: u16 = 200;

/// Status code of a request that is refused before the session sees it.
pub const STATUS_BAD_REQUEST: u16 = 400;

/// Status code of a response that reports a backend failure.
pub const STATUS_INTERNAL_ERROR: u16 = 500;

/// A content type that a response declares.
#[derive(Debug, Clone, Copy, PartialEq, Eq, Structural)]
pub enum ContentType {
    PlainText,
}

/// A complete response: status code, the content type that it declares, if
/// any, and the body.
#[derive(Debug, Clone, PartialEq, Eq)]
pub struct Reply {
    pub status: u16,
    pub content_type: Option<ContentType>,
    pub body: String,
}

/// A response as a mathematical value.
pub struct ReplyView {
    pub status: int,
    pub content_type: Option<ContentType>,
    pub body: Seq<char>,
}

impl View for Reply {
    type V = ReplyView;

    open spec fn view(&self) -> ReplyView {
        ReplyView { status: self.status as int, content_type: self.content_type, body: self.body@ }
    }
}

/// The response owed for the outcome of a completion call: the answer as
/// plain text with status 200, or the failure's description with status
/// 500 and no declared content type.
pub open spec fn reply_of(outcome: Result<String, String>) -> ReplyView {
    match outcome {
        Ok(answer) => ReplyView {
            status: 200,
            content_type: Some(ContentType::PlainText),
            body: answer@,
        },
        Err(description) => ReplyView { status: 500, content_type: None, body: description@ },
    }
}

/// The refusal of a request for a reason: a client error whose body is the
/// reason.
pub open spec fn refusal_of(reason: Seq<char>) -> ReplyView {
    ReplyView { status: 400, content_type: None, body: reason }
}

/// Maps the outcome of a blocking completion call to the response.
pub fn reply_for(outcome: Result<String, String>) -> (reply: Reply)
    ensures
        reply@ == reply_of(outcome),
{
    match outcome {
        Ok(answer) => Reply {
            status: STATUS_OK,
            content_type: Some(ContentType::PlainText),
            body: answer,
        },
        Err(description) => Reply {
            status: STATUS_INTERNAL_ERROR,
            content_type: None,
            body: description,
        },
    }
}

/// Refuses a request for the given reason.
pub fn refusal(reason: &str) -> (reply: Reply)
    ensures
        reply@ == refusal_of(reason@),
{
    Reply { status: STATUS_BAD_REQUEST, content_type: None, body: String::from_str(reason) }
}

/// A response reports success exactly when the completion call succeeded,
/// and then its body is the answer, unchanged; otherwise it reports a
/// server error whose body is the failure's description.
pub proof fn lemma_reply_status(outcome: Result<String, String>)
    ensures
        reply_of(outcome).status == 200 <==> outcome.is_ok(),
        reply_of(outcome).status == 500 <==> outcome.is_err(),
        outcome.is_ok() ==> reply_of(outcome).body == outcome.unwrap()@,
        outcome.is_err() ==> reply_of(outcome).body == outcome.unwrap_err()@,
{
}

} // verus!
