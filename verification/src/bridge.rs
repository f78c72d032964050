//! From what the transport reports to the outcome of a submission.
//!
//! The caller performs the request and reads the answer; the functions here
//! decide, after each of its steps, what comes next and how it all ended.
//! One request is one attempt: no step asks for a second one.

use crate::outcome::{
    BridgeError, BridgeErrorView, LinkResult, LinkResultView, Outcome, OutcomeView,
};
use crate::outcome::error_message;
use crate::status::{is_status_code, is_success_code, reason_phrase, status_line, HttpStatus};
use crate::text::{contains_text, decimal_digits, middle_is_contained};
use vstd::prelude::*;
use vstd::string::*;

verus! {

/// What to do once the request was sent.
#[derive(Clone, Debug, PartialEq, Eq)]
pub enum Step {
    /// Nothing more: this is the outcome.
    Finished(Outcome),
    /// Read the body as a created link, then call [`after_link`].
    ReadLink,
    /// Read the body as text, then call [`after_text`] with this status.
    ReadText(HttpStatus),
}

/// [`Step`] as plain text and numbers.
pub enum StepView {
    Finished(OutcomeView),
    ReadLink,
    ReadText(u16),
}

impl View for Step {
    type V = StepView;

    open spec fn view(&self) -> StepView {
        match self {
            Step::Finished(outcome) => StepView::Finished(outcome@),
            Step::ReadLink => StepView::ReadLink,
            Step::ReadText(status) => StepView::ReadText(status@),
        }
    }
}

/// The step after sending: a transport failure ends the submission; a status
/// in 2xx asks for the created link; any other status asks for the body text.
pub open spec fn step_after_send(sent: Result<u16, Seq<char>>) -> StepView {
    match sent {
        Err(message) => StepView::Finished(
            OutcomeView::Failure(BridgeErrorView::Transport { message }),
        ),
        Ok(code) => if is_success_code(code) {
            StepView::ReadLink
        } else {
            StepView::ReadText(code)
        },
    }
}

/// The outcome once the body of a 2xx answer was read: the link as parsed,
/// or a decode error with the parser's message.
pub open spec fn outcome_after_link(parsed: Result<LinkResultView, Seq<char>>) -> OutcomeView {
    match parsed {
        Ok(link) => OutcomeView::Success(link),
        Err(message) => OutcomeView::Failure(BridgeErrorView::Decode { message }),
    }
}

/// The outcome once the body of an answer outside 2xx was read: an API error
/// with the status and the body, or with an empty body where none could be
/// read.
pub open spec fn outcome_after_text(status: u16, body: Option<Seq<char>>) -> OutcomeView {
    OutcomeView::Failure(
        BridgeErrorView::Api {
            status,
            body: match body {
                Some(text) => text,
                None => Seq::empty(),
            },
        },
    )
}

/// How a submission that was sent ends, given all that its one attempt can
/// meet: what sending gave, what parsing the body would give, and the body
/// text if it can be read. Only what the step after sending asks for is
/// looked at.
pub open spec fn outcome_of_attempt(
    sent: Result<u16, Seq<char>>,
    parsed: Result<LinkResultView, Seq<char>>,
    body: Option<Seq<char>>,
) -> OutcomeView {
    match step_after_send(sent) {
        StepView::Finished(outcome) => outcome,
        StepView::ReadLink => outcome_after_link(parsed),
        StepView::ReadText(status) => outcome_after_text(status, body),
    }
}

/// The view of what sending gave: the status number, or the transport's
/// message.
pub open spec fn sent_view(sent: Result<HttpStatus, String>) -> Result<u16, Seq<char>> {
    match sent {
        Ok(status) => Ok(status@),
        Err(message) => Err(message@),
    }
}

/// The view of what parsing the body gave: the link, or the parser's message.
pub open spec fn parsed_view(parsed: Result<LinkResult, String>) -> Result<
    LinkResultView,
    Seq<char>,
> {
    match parsed {
        Ok(link) => Ok(link@),
        Err(message) => Err(message@),
    }
}

/// Decides what follows the sending of a request. `sent` is the status of
/// the answer, or the transport's message where no answer came.
pub fn after_send(sent: Result<HttpStatus, String>) -> (r: Step)
    ensures
        r@ == step_after_send(sent_view(sent)),
{
    match sent {
        Err(message) => Step::Finished(Outcome::Failure(BridgeError::Transport { message })),
        Ok(status) => {
            if status.reports_success() {
                Step::ReadLink
            } else {
                Step::ReadText(status)
            }
        },
    }
}

/// The outcome of a submission whose answer had a 2xx status. `parsed` is the
/// link read from the body, or the parser's message.
pub fn after_link(parsed: Result<LinkResult, String>) -> (r: Outcome)
    ensures
        r@ == outcome_after_link(parsed_view(parsed)),
{
    match parsed {
        Ok(link) => Outcome::Success(link),
        Err(message) => Outcome::Failure(BridgeError::Decode { message }),
    }
}

/// The outcome of a submission whose answer had a status outside 2xx. `body`
/// is the body text, or `None` where it could not be read.
pub fn after_text(status: HttpStatus, body: Option<String>) -> (r: Outcome)
    ensures
        r@ == outcome_after_text(status@, body.deep_view()),
{
    let body: String = match body {
        Some(text) => text,
        None => String::new(),
    };
    Outcome::Failure(BridgeError::Api { status, body })
}

/// Every attempt ends in exactly one of four ways, and which one is decided
/// by the transport, then the status, then the body: no answer is a
/// transport error; a status outside 2xx is an API error with that status,
/// whatever the body holds; a 2xx answer is a decode error where its body
/// does not parse, and a link, the parsed one, only where it does.
pub proof fn attempt_ends_by_case(
    sent: Result<u16, Seq<char>>,
    parsed: Result<LinkResultView, Seq<char>>,
    body: Option<Seq<char>>,
)
    ensures
        ({
            let outcome = outcome_of_attempt(sent, parsed, body);
            &&& outcome is Success <==> sent is Ok && is_success_code(sent->Ok_0) && parsed is Ok
            &&& outcome is Success ==> outcome->Success_0 == parsed->Ok_0
            &&& outcome is Failure ==> !(outcome->Failure_0 is Validation)
            &&& sent is Err ==> outcome == OutcomeView::Failure(
                BridgeErrorView::Transport { message: sent->Err_0 },
            )
            &&& sent is Ok && !is_success_code(sent->Ok_0) ==> outcome is Failure
                && outcome->Failure_0 is Api && outcome->Failure_0->Api_status == sent->Ok_0
            &&& sent is Ok && is_success_code(sent->Ok_0) && parsed is Err ==> outcome
                == OutcomeView::Failure(BridgeErrorView::Decode { message: parsed->Err_0 })
        }),
{
}

/// An answer with a status outside 2xx always ends in an API error, and the
/// message shown for it holds the status number in decimal and the body text
/// as it was read.
pub proof fn api_error_shows_status_and_body(code: u16, body: Seq<char>)
    requires
        is_status_code(code),
        !is_success_code(code),
    ensures
        step_after_send(Ok(code)) == StepView::ReadText(code),
        outcome_after_text(code, Some(body)) == OutcomeView::Failure(
            BridgeErrorView::Api { status: code, body },
        ),
        contains_text(
            error_message(BridgeErrorView::Api { status: code, body }),
            decimal_digits(code as nat),
        ),
        contains_text(error_message(BridgeErrorView::Api { status: code, body }), body),
{
    let message = error_message(BridgeErrorView::Api { status: code, body });
    let phrase = match reason_phrase(code) {
        Some(phrase) => phrase,
        None => "<unknown status code>"@,
    };
    let digits = decimal_digits(code as nat);
    middle_is_contained("API error "@, digits, " "@ + phrase + ": "@ + body);
    assert(message =~= "API error "@ + digits + (" "@ + phrase + ": "@ + body));
    middle_is_contained("API error "@ + status_line(code) + ": "@, body, Seq::empty());
    assert(message =~= "API error "@ + status_line(code) + ": "@ + body + Seq::empty());
}

} // verus!
