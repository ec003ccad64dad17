//! The data that the service handles, and the mathematical view of each.

use vstd::prelude::*;

verus! {

/// Why an operation of the service did not succeed.
#[derive(Debug, Clone, Copy, PartialEq, Eq, Structural)]
pub enum ServiceError {
    /// The submitted target is not an absolute URL with an authority.
    InvalidInput,
    /// No record exists for the token.
    NotFound,
    /// The custom token is already taken.
    Conflict,
    /// Every generated token collided with an existing one.
    ExhaustedRetries,
    /// The store could not answer.
    StoreError,
}

/// What the store answered to a conditional insert.
#[derive(Debug, Clone, Copy, PartialEq, Eq, Structural)]
pub enum InsertOutcome {
    /// The record was written; no record had that token before.
    Inserted,
    /// A record with that token exists already; nothing was written.
    AlreadyExists,
    /// The store could not answer; nothing is known to be written.
    Unavailable,
}

/// One stored mapping from a token to its target.
#[derive(Debug, Clone, PartialEq, Eq)]
pub struct ShortenedUrl {
    pub token: String,
    pub target: String,
}

/// A stored mapping as plain sequences of characters.
pub struct RecordView {
    pub token: Seq<char>,
    pub target: Seq<char>,
}

impl View for ShortenedUrl {
    type V = RecordView;

    open spec fn view(&self) -> RecordView {
        RecordView { token: self.token@, target: self.target@ }
    }
}

/// What the store answered to a lookup by token.
#[derive(Debug, Clone, PartialEq, Eq)]
pub enum Lookup {
    Found(ShortenedUrl),
    Absent,
    Unavailable,
}

pub enum LookupView {
    Found(RecordView),
    Absent,
    Unavailable,
}

impl View for Lookup {
    type V = LookupView;

    open spec fn view(&self) -> LookupView {
        match self {
            Lookup::Found(record) => LookupView::Found(record@),
            Lookup::Absent => LookupView::Absent,
            Lookup::Unavailable => LookupView::Unavailable,
        }
    }
}

/// What the store answered when asked for all its records.
#[derive(Debug, Clone, PartialEq, Eq)]
pub enum Listing {
    Rows(Vec<ShortenedUrl>),
    Unavailable,
}

/// The public form of a record: its full short URL.
#[derive(Debug, Clone, PartialEq, Eq)]
pub struct ShortLink {
    pub url: String,
}

/// A created mapping: the token that was stored and its full short URL.
#[derive(Debug, Clone, PartialEq, Eq)]
pub struct Created {
    pub token: String,
    pub url: String,
}

pub struct CreatedView {
    pub token: Seq<char>,
    pub url: Seq<char>,
}

impl View for Created {
    type V = CreatedView;

    open spec fn view(&self) -> CreatedView {
        CreatedView { token: self.token@, url: self.url@ }
    }
}

/// A create request that waits for the store to answer an insert.
#[derive(Debug, Clone, PartialEq, Eq)]
pub struct Pending {
    /// The token to insert.
    pub token: String,
    /// The validated target.
    pub target: String,
    /// Whether the client chose the token.
    pub custom: bool,
    /// How many more tokens may be generated after a collision.
    pub attempts_left: u32,
}

pub struct PendingView {
    pub token: Seq<char>,
    pub target: Seq<char>,
    pub custom: bool,
    pub attempts_left: nat,
}

impl View for Pending {
    type V = PendingView;

    open spec fn view(&self) -> PendingView {
        PendingView {
            token: self.token@,
            target: self.target@,
            custom: self.custom,
            attempts_left: self.attempts_left as nat,
        }
    }
}

/// What a create request asks of its driver next.
#[derive(Debug, PartialEq, Eq)]
pub enum CreateStep {
    /// Insert the pending record if its token is absent, then report the
    /// store's answer.
    Insert(Pending),
    /// The request is over, with this result.
    Done(Result<Created, ServiceError>),
}

pub enum StepView {
    Insert(PendingView),
    Done(Result<CreatedView, ServiceError>),
}

impl StepView {
    /// The token that waits to be inserted; empty when the request is over.
    pub open spec fn pending_token(self) -> Seq<char> {
        match self {
            StepView::Insert(pending) => pending.token,
            StepView::Done(_) => Seq::empty(),
        }
    }

    /// An upper bound on the inserts that the request may still ask for.
    pub open spec fn budget(self) -> nat {
        match self {
            StepView::Insert(pending) => pending.attempts_left + 1,
            StepView::Done(_) => 0,
        }
    }
}

impl View for CreateStep {
    type V = StepView;

    open spec fn view(&self) -> StepView {
        match self {
            CreateStep::Insert(pending) => StepView::Insert(pending@),
            CreateStep::Done(Ok(created)) => StepView::Done(Ok(created@)),
            CreateStep::Done(Err(error)) => StepView::Done(Err(*error)),
        }
    }
}

/// The characters of an optional string.
pub open spec fn optional_text(text: Option<String>) -> Option<Seq<char>> {
    match text {
        Some(t) => Some(t@),
        None => None,
    }
}

/// The characters of a string result.
pub open spec fn text_result(result: Result<String, ServiceError>) -> Result<
    Seq<char>,
    ServiceError,
> {
    match result {
        Ok(t) => Ok(t@),
        Err(error) => Err(error),
    }
}

} // verus!
