//! The shortening service: listing, resolving and creating shortened URLs.
//!
//! The service holds no state and does not talk to the store itself. Each
//! function takes what the store answered and decides what follows; a create
//! request proceeds in steps, and between two steps its driver performs the
//! insert that the step asked for.

use vstd::prelude::*;
use vstd::string::*;
use crate::model::{
    optional_text, text_result, Created, CreateStep, CreatedView, InsertOutcome, Listing, Lookup,
    LookupView, Pending, PendingView, RecordView, ServiceError, ShortLink, ShortenedUrl, StepView,
};
use crate::target::{valid_url, validate};
use crate::token::{generate_url_safe_id, is_generated_token};

verus! {

/// How many tokens a create request generates at most before it gives up.
pub const MAX_ATTEMPTS: u32 = 5;

/// The full short URL of a token: the public base, a slash, the token.
pub open spec fn short_url_of(base: Seq<char>, token: Seq<char>) -> Seq<char> {
    base + seq!['/'] + token
}

/// The public form of every record of `rows`, in their order.
pub open spec fn list_spec(base: Seq<char>, rows: Seq<RecordView>) -> Seq<Seq<char>> {
    Seq::new(rows.len(), |i: int| short_url_of(base, rows[i].token))
}

/// The records of `rows` as plain sequences of characters.
pub open spec fn record_views(rows: Seq<ShortenedUrl>) -> Seq<RecordView> {
    Seq::new(rows.len(), |i: int| rows[i]@)
}

/// The URLs of `entries`.
pub open spec fn link_urls(entries: Seq<ShortLink>) -> Seq<Seq<char>> {
    Seq::new(entries.len(), |i: int| entries[i].url@)
}

/// What a lookup's answer resolves to.
pub open spec fn resolve_spec(found: LookupView) -> Result<Seq<char>, ServiceError> {
    match found {
        LookupView::Found(record) => Ok(record.target),
        LookupView::Absent => Err(ServiceError::NotFound),
        LookupView::Unavailable => Err(ServiceError::StoreError),
    }
}

/// The first step of a create request. `fresh` is the token that the
/// generator yields; it is used only where the client chose none.
pub open spec fn begin_spec(
    valid: bool,
    target: Seq<char>,
    custom: Option<Seq<char>>,
    fresh: Seq<char>,
) -> StepView {
    if !valid {
        StepView::Done(Err(ServiceError::InvalidInput))
    } else {
        match custom {
            Some(token) => StepView::Insert(
                PendingView { token, target, custom: true, attempts_left: 0 },
            ),
            None => StepView::Insert(
                PendingView {
                    token: fresh,
                    target,
                    custom: false,
                    attempts_left: (MAX_ATTEMPTS - 1) as nat,
                },
            ),
        }
    }
}

/// The step that follows the store's answer to an insert. `fresh` is the
/// token that the generator yields; it is used only for a retry.
pub open spec fn after_insert_spec(
    pending: PendingView,
    outcome: InsertOutcome,
    base: Seq<char>,
    fresh: Seq<char>,
) -> StepView {
    match outcome {
        InsertOutcome::Inserted => StepView::Done(
            Ok(CreatedView { token: pending.token, url: short_url_of(base, pending.token) }),
        ),
        InsertOutcome::Unavailable => StepView::Done(Err(ServiceError::StoreError)),
        InsertOutcome::AlreadyExists => if pending.custom {
            StepView::Done(Err(ServiceError::Conflict))
        } else if pending.attempts_left == 0 {
            StepView::Done(Err(ServiceError::ExhaustedRetries))
        } else {
            StepView::Insert(
                PendingView {
                    token: fresh,
                    target: pending.target,
                    custom: false,
                    attempts_left: (pending.attempts_left - 1) as nat,
                },
            )
        },
    }
}

/// The HTTP status that reports `error`: 422 for an invalid target, 404 for
/// an unknown token, 409 for a taken custom token, 503 where generated
/// tokens ran out, and 500 for a store that could not answer.
pub open spec fn status_of(error: ServiceError) -> u16 {
    match error {
        ServiceError::InvalidInput => 422,
        ServiceError::NotFound => 404,
        ServiceError::Conflict => 409,
        ServiceError::ExhaustedRetries => 503,
        ServiceError::StoreError => 500,
    }
}

/// The HTTP status that reports `error` to a client. The category is all
/// that a client learns of a failure.
pub fn status_code(error: ServiceError) -> (code: u16)
    ensures
        code == status_of(error),
{
    match error {
        ServiceError::InvalidInput => 422,
        ServiceError::NotFound => 404,
        ServiceError::Conflict => 409,
        ServiceError::ExhaustedRetries => 503,
        ServiceError::StoreError => 500,
    }
}

/// The HTTP status that answers a listing: 200 with the entries.
pub const STATUS_OK: u16 = 200;

/// The HTTP status that answers a create request that succeeded.
pub const STATUS_CREATED: u16 = 201;

/// The HTTP status that answers a resolved token, with the target as the
/// redirect's location.
pub const STATUS_TEMPORARY_REDIRECT: u16 = 307;

/// The HTTP status that answers a create request with this result.
pub fn create_status(result: &Result<Created, ServiceError>) -> (code: u16)
    ensures
        code == match *result {
            Ok(_) => STATUS_CREATED,
            Err(error) => status_of(error),
        },
{
    match result {
        Ok(_) => STATUS_CREATED,
        Err(error) => status_code(*error),
    }
}

/// The HTTP status that answers a resolve request with this result.
pub fn resolve_status(result: &Result<String, ServiceError>) -> (code: u16)
    ensures
        code == match *result {
            Ok(_) => STATUS_TEMPORARY_REDIRECT,
            Err(error) => status_of(error),
        },
{
    match result {
        Ok(_) => STATUS_TEMPORARY_REDIRECT,
        Err(error) => status_code(*error),
    }
}

/// The HTTP status that answers a list request with this result.
pub fn list_status(result: &Result<Vec<ShortLink>, ServiceError>) -> (code: u16)
    ensures
        code == match *result {
            Ok(_) => STATUS_OK,
            Err(error) => status_of(error),
        },
{
    match result {
        Ok(_) => STATUS_OK,
        Err(error) => status_code(*error),
    }
}

/// Builds the full short URL of `token` under `base`.
pub fn full_short_url(base: &str, token: &str) -> (url: String)
    ensures
        url@ == short_url_of(base@, token@),
{
    proof {
        reveal_strlit("/");
        assert("/"@ =~= seq!['/']);
    }
    String::from_str(base).concat("/").concat(token)
}

/// Lists the stored records in their public form, one entry per record and
/// in the store's order. Fails only where the store could not answer.
pub fn list(base: &str, listing: &Listing) -> (links: Result<Vec<ShortLink>, ServiceError>)
    ensures
        match *listing {
            Listing::Rows(rows) => links matches Ok(entries) && link_urls(entries@) == list_spec(
                base@,
                record_views(rows@),
            ),
            Listing::Unavailable => links == Err::<Vec<ShortLink>, ServiceError>(
                ServiceError::StoreError,
            ),
        },
{
    match listing {
        Listing::Unavailable => Err(ServiceError::StoreError),
        Listing::Rows(rows) => {
            let mut entries: Vec<ShortLink> = Vec::new();
            let mut i: usize = 0;
            while i < rows.len()
                invariant
                    i <= rows.len(),
                    entries.len() == i,
                    forall|k: int|
                        0 <= k < i ==> (#[trigger] entries[k]).url@ == short_url_of(
                            base@,
                            rows[k].token@,
                        ),
                decreases rows.len() - i,
            {
                let url = full_short_url(base, rows[i].token.as_str());
                entries.push(ShortLink { url });
                i = i + 1;
            }
            proof {
                assert(link_urls(entries@) =~= list_spec(base@, record_views(rows@)));
            }
            Ok(entries)
        },
    }
}

/// Resolves a lookup's answer to the stored target, to which the caller
/// redirects.
pub fn resolve(found: Lookup) -> (target: Result<String, ServiceError>)
    ensures
        text_result(target) == resolve_spec(found@),
{
    match found {
        Lookup::Found(record) => Ok(record.target),
        Lookup::Absent => Err(ServiceError::NotFound),
        Lookup::Unavailable => Err(ServiceError::StoreError),
    }
}

/// Starts a create request: validates the target and picks the token, the
/// client's where it gave one, else a generated one.
///
/// An invalid target ends the request at once, before any insert is asked
/// for. The generated token is random: the contract fixes everything else
/// of the step, and the token's shape.
pub fn begin_create(target: String, custom: Option<String>) -> (step: CreateStep)
    ensures
        step@ == begin_spec(
            valid_url(target@),
            target@,
            optional_text(custom),
            step@.pending_token(),
        ),
        valid_url(target@) && custom is None ==> is_generated_token(step@.pending_token()),
{
    match validate(target.as_str()) {
        Err(_) => CreateStep::Done(Err(ServiceError::InvalidInput)),
        Ok(_) => match custom {
            Some(token) => CreateStep::Insert(
                Pending { token, target, custom: true, attempts_left: 0 },
            ),
            None => CreateStep::Insert(
                Pending {
                    token: generate_url_safe_id(),
                    target,
                    custom: false,
                    attempts_left: MAX_ATTEMPTS - 1,
                },
            ),
        },
    }
}

/// Continues a create request with the store's answer to the insert that
/// the last step asked for.
///
/// A written record ends the request with its full short URL. A taken custom
/// token is a conflict. A taken generated token is replaced by a new one
/// while attempts are left. A store that could not answer ends the request;
/// its failure is never retried. The new token of a retry is random: the
/// contract fixes everything else of the step, and the token's shape.
pub fn after_insert(pending: Pending, outcome: InsertOutcome, base: &str) -> (step: CreateStep)
    ensures
        step@ == after_insert_spec(pending@, outcome, base@, step@.pending_token()),
        step@ is Insert ==> is_generated_token(step@.pending_token()),
{
    match outcome {
        InsertOutcome::Inserted => {
            let url = full_short_url(base, pending.token.as_str());
            CreateStep::Done(Ok(Created { token: pending.token, url }))
        },
        InsertOutcome::Unavailable => CreateStep::Done(Err(ServiceError::StoreError)),
        InsertOutcome::AlreadyExists => {
            if pending.custom {
                CreateStep::Done(Err(ServiceError::Conflict))
            } else if pending.attempts_left == 0 {
                CreateStep::Done(Err(ServiceError::ExhaustedRetries))
            } else {
                CreateStep::Insert(
                    Pending {
                        token: generate_url_safe_id(),
                        target: pending.target,
                        custom: false,
                        attempts_left: pending.attempts_left - 1,
                    },
                )
            }
        },
    }
}

} // verus!
