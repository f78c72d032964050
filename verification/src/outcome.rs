//! What a submission can end in, and the mailbox that carries it back.

use crate::status::{status_line, HttpStatus};
use vstd::prelude::*;
use vstd::string::*;

verus! {

/// A created short link: the shortened address and the address it stands for.
#[derive(Clone, Debug, PartialEq, Eq)]
pub struct LinkResult {
    pub short_url: String,
    pub original_url: String,
}

/// [`LinkResult`] as plain text.
pub struct LinkResultView {
    pub short_url: Seq<char>,
    pub original_url: Seq<char>,
}

impl View for LinkResult {
    type V = LinkResultView;

    open spec fn view(&self) -> LinkResultView {
        LinkResultView { short_url: self.short_url@, original_url: self.original_url@ }
    }
}

/// A required field that a submission lacks.
#[derive(Clone, Copy, Debug, PartialEq, Eq)]
pub enum ValidationError {
    /// No API key is configured.
    MissingApiKey,
    /// The address to shorten is empty.
    MissingUrl,
}

/// Why a submission failed.
#[derive(Clone, Debug, PartialEq, Eq)]
pub enum BridgeError {
    /// A required field is missing; nothing was sent.
    Validation(ValidationError),
    /// The request did not get through, with the transport's own words.
    Transport { message: String },
    /// The remote side answered with a status outside 2xx.
    Api { status: HttpStatus, body: String },
    /// The remote side reported success, but its answer could not be read,
    /// with the parser's own words.
    Decode { message: String },
}

/// [`BridgeError`] as plain text and numbers.
pub enum BridgeErrorView {
    Validation(ValidationError),
    Transport { message: Seq<char> },
    Api { status: u16, body: Seq<char> },
    Decode { message: Seq<char> },
}

impl View for BridgeError {
    type V = BridgeErrorView;

    open spec fn view(&self) -> BridgeErrorView {
        match self {
            BridgeError::Validation(missing) => BridgeErrorView::Validation(*missing),
            BridgeError::Transport { message } => BridgeErrorView::Transport { message: message@ },
            BridgeError::Api { status, body } => BridgeErrorView::Api {
                status: status@,
                body: body@,
            },
            BridgeError::Decode { message } => BridgeErrorView::Decode { message: message@ },
        }
    }
}

/// The message shown for a missing field.
pub open spec fn validation_message(missing: ValidationError) -> Seq<char> {
    match missing {
        ValidationError::MissingApiKey => "API key is required. Click settings (⚙) to configure."@,
        ValidationError::MissingUrl => "Original URL is required"@,
    }
}

/// The message shown for an answer outside 2xx, given how its status reads
/// and what its body holds.
pub open spec fn api_error_text(line: Seq<char>, body: Seq<char>) -> Seq<char> {
    "API error "@ + line + ": "@ + body
}

/// The one message shown for an error, whatever its kind.
pub open spec fn error_message(error: BridgeErrorView) -> Seq<char> {
    match error {
        BridgeErrorView::Validation(missing) => validation_message(missing),
        BridgeErrorView::Transport { message } => "Request failed: "@ + message,
        BridgeErrorView::Api { status, body } => api_error_text(status_line(status), body),
        BridgeErrorView::Decode { message } => "Failed to parse response: "@ + message,
    }
}

/// Writes the message for an answer outside 2xx from how its status reads
/// and what its body holds.
pub fn api_error_message(line: &str, body: &str) -> (r: String)
    ensures
        r@ == api_error_text(line@, body@),
{
    let mut out: String = String::from_str("API error ");
    out.append(line);
    out.append(": ");
    out.append(body);
    out
}

impl ValidationError {
    /// The message shown for this missing field.
    pub fn message(&self) -> (r: String)
        ensures
            r@ == validation_message(*self),
    {
        match self {
            ValidationError::MissingApiKey => String::from_str(
                "API key is required. Click settings (⚙) to configure.",
            ),
            ValidationError::MissingUrl => String::from_str("Original URL is required"),
        }
    }
}

impl BridgeError {
    /// The message shown for this error.
    pub fn message(&self) -> (r: String)
        ensures
            r@ == error_message(self@),
    {
        match self {
            BridgeError::Validation(missing) => missing.message(),
            BridgeError::Transport { message } => {
                String::from_str("Request failed: ").concat(message.as_str())
            },
            BridgeError::Api { status, body } => {
                let line: String = status.line();
                api_error_message(line.as_str(), body.as_str())
            },
            BridgeError::Decode { message } => {
                String::from_str("Failed to parse response: ").concat(message.as_str())
            },
        }
    }
}

/// How a submission that was sent ended.
#[derive(Clone, Debug, PartialEq, Eq)]
pub enum Outcome {
    /// The link was created.
    Success(LinkResult),
    /// It was not, and why.
    Failure(BridgeError),
}

/// [`Outcome`] as plain text and numbers.
pub enum OutcomeView {
    Success(LinkResultView),
    Failure(BridgeErrorView),
}

impl View for Outcome {
    type V = OutcomeView;

    open spec fn view(&self) -> OutcomeView {
        match self {
            Outcome::Success(link) => OutcomeView::Success(link@),
            Outcome::Failure(error) => OutcomeView::Failure(error@),
        }
    }
}

/// The mailbox between the task that performs a request and the form that
/// shows its outcome. It holds at most one outcome. A later delivery replaces
/// one that was not taken yet: deliveries carry no mark of the submission
/// they belong to, so where two requests are in flight the one that ends last
/// wins.
#[derive(Debug)]
pub struct OutcomeSlot {
    pending: Option<Outcome>,
}

impl View for OutcomeSlot {
    type V = Option<OutcomeView>;

    closed spec fn view(&self) -> Option<OutcomeView> {
        match self.pending {
            Some(outcome) => Some(outcome@),
            None => None,
        }
    }
}

impl OutcomeSlot {
    /// An empty mailbox.
    pub fn new() -> (r: OutcomeSlot)
        ensures
            r@ is None,
    {
        OutcomeSlot { pending: None }
    }

    /// Whether an outcome waits to be taken.
    pub fn is_pending(&self) -> (r: bool)
        ensures
            r == (self@ is Some),
    {
        self.pending.is_some()
    }

    /// Puts an outcome in, in place of whatever was there.
    pub fn deliver(&mut self, outcome: Outcome)
        ensures
            final(self)@ == Some(outcome@),
    {
        self.pending = Some(outcome);
    }

    /// Takes the waiting outcome out, if there is one, and leaves the mailbox
    /// empty.
    pub fn take(&mut self) -> (r: Option<Outcome>)
        ensures
            final(self)@ is None,
            match r {
                Some(outcome) => old(self)@ == Some(outcome@),
                None => old(self)@ is None,
            },
    {
        self.pending.take()
    }
}

} // verus!
