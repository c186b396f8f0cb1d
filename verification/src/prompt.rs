//! The request of the route and what is done with it before the session is
//! called.

use crate::reply::refusal;
use crate::reply::refusal_of;
use crate::reply::Reply;
use vstd::prelude::*;
use vstd::string::*;

verus! {

/// A request body as it arrived: the question, if the body has one.
#[derive(Debug, Clone, PartialEq, Eq)]
pub struct RequestBody {
    pub question: Option<String>,
}

/// A well-formed request.
#[derive(Debug, Clone, PartialEq, Eq)]
pub struct PromptRequest {
    pub question: String,
}

/// One template variable: its name and the text that takes its place.
#[derive(Debug, Clone, PartialEq, Eq)]
pub struct Variable {
    pub name: String,
    pub text: String,
}

/// What is done with a request.
#[derive(Debug, Clone, PartialEq, Eq)]
pub enum Admission {
    /// The session is called with these template variables.
    Invoke(Vec<Variable>),
    /// The request is answered at once; the session is not called.
    Refuse(Reply),
}

impl Variable {
    /// Name and text of the variable.
    pub open spec fn view(&self) -> (Seq<char>, Seq<char>) {
        (self.name@, self.text@)
    }
}

/// The template variables of a question: the question under the name
/// `input`, and nothing else.
pub open spec fn variables_of(question: Seq<char>) -> Seq<(Seq<char>, Seq<char>)> {
    seq![("input"@, question)]
}

/// The views of a list of variables, in order.
pub open spec fn variable_views(variables: Seq<Variable>) -> Seq<(Seq<char>, Seq<char>)> {
    variables.map_values(|v: Variable| v@)
}

/// Whether the session is called for a request body: exactly when it holds
/// a question.
pub open spec fn reaches_session(body: RequestBody) -> bool {
    body.question.is_some()
}

/// The template variables that the session is called with for a request.
pub fn prompt_variables(request: &PromptRequest) -> (variables: Vec<Variable>)
    ensures
        variable_views(variables@) == variables_of(request.question@),
{
    let variable = Variable {
        name: String::from_str("input"),
        text: request.question.clone(),
    };
    let mut variables: Vec<Variable> = Vec::new();
    variables.push(variable);
    proof {
        assert(variable_views(variables@) =~= variables_of(request.question@));
    }
    variables
}

/// Decides what is done with a request body. With a question the session
/// is called, with the question as the one template variable. Without one
/// the request is refused as a client error that carries the given reason,
/// and the session is not called.
pub fn receive(body: RequestBody, reason: &str) -> (admission: Admission)
    ensures
        match admission {
            Admission::Invoke(variables) => {
                &&& reaches_session(body)
                &&& variable_views(variables@) == variables_of(body.question.unwrap()@)
            },
            Admission::Refuse(reply) => {
                &&& !reaches_session(body)
                &&& reply@ == refusal_of(reason@)
            },
        },
{
    match body.question {
        Some(question) => {
            let request = PromptRequest { question };
            Admission::Invoke(prompt_variables(&request))
        },
        None => Admission::Refuse(refusal(reason)),
    }
}

} // verus!
