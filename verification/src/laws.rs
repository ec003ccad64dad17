//! What holds of the service over several calls against an answering store.
//!
//! A create request is run to its end here in the way that a driver runs it:
//! each insert that a step asks for is answered by the store, and the answer
//! is handed to the next step. The tokens that the generator yields are a
//! parameter, so every statement holds whatever the generator drew.

use vstd::prelude::*;
use crate::model::{
    CreatedView, InsertOutcome, PendingView, RecordView, ServiceError, StepView,
};
use crate::service::{
    after_insert_spec, begin_spec, list_spec, resolve_spec, short_url_of, MAX_ATTEMPTS,
};
use crate::store::{
    find_by_token, holds, insert_if_absent, lemma_find_is_the_record, lemma_insert_then_find,
    unique_tokens,
};
use crate::target::valid_url;

verus! {

/// A create request as a client submits it, with the tokens that the
/// generator yields while the request runs: `fresh(0)` first.
pub struct CreateCall {
    pub target: Seq<char>,
    pub custom: Option<Seq<char>>,
    pub fresh: spec_fn(nat) -> Seq<char>,
}

/// The end of a create request: the store after it, and its result.
pub struct Run {
    pub store: Seq<RecordView>,
    pub result: Result<CreatedView, ServiceError>,
}

/// Runs a request from `step` to its end. The generator's next token is
/// `fresh(next)`.
pub open spec fn drive(
    store: Seq<RecordView>,
    step: StepView,
    base: Seq<char>,
    fresh: spec_fn(nat) -> Seq<char>,
    next: nat,
) -> Run
    decreases step.budget(),
{
    match step {
        StepView::Done(result) => Run { store, result },
        StepView::Insert(pending) => {
            let (after, outcome) = insert_if_absent(store, pending.token, pending.target);
            drive(
                after,
                after_insert_spec(pending, outcome, base, fresh(next)),
                base,
                fresh,
                next + 1,
            )
        },
    }
}

/// Runs a whole create request against `store`.
pub open spec fn create_run(store: Seq<RecordView>, base: Seq<char>, call: CreateCall) -> Run {
    drive(
        store,
        begin_spec(valid_url(call.target), call.target, call.custom, (call.fresh)(0)),
        base,
        call.fresh,
        1,
    )
}

/// The store after the requests of `calls` ran one after the other, the
/// first of them against the empty store.
pub open spec fn replay(base: Seq<char>, calls: Seq<CreateCall>) -> Seq<RecordView>
    decreases calls.len(),
{
    if calls.len() == 0 {
        Seq::empty()
    } else {
        create_run(replay(base, calls.drop_last()), base, calls.last()).store
    }
}

/// The result of request `i` of `calls`.
pub open spec fn result_at(base: Seq<char>, calls: Seq<CreateCall>, i: int) -> Result<
    CreatedView,
    ServiceError,
> {
    create_run(replay(base, calls.take(i)), base, calls[i]).result
}

/// How many requests of `calls` succeeded.
pub open spec fn successes(base: Seq<char>, calls: Seq<CreateCall>) -> nat
    decreases calls.len(),
{
    if calls.len() == 0 {
        0
    } else {
        successes(base, calls.drop_last()) + if result_at(base, calls, calls.len() - 1) is Ok {
            1nat
        } else {
            0nat
        }
    }
}

/// What one pending insert leads to: either a record with the request's
/// target is appended under a token that was free, and the request succeeds
/// with that token; or the store stays as it was and the request fails.
pub open spec fn run_is_sound(
    store: Seq<RecordView>,
    base: Seq<char>,
    target: Seq<char>,
    run: Run,
) -> bool {
    match run.result {
        Ok(created) => {
            &&& !holds(store, created.token)
            &&& run.store == store.push(RecordView { token: created.token, target })
            &&& created.url == short_url_of(base, created.token)
        },
        Err(_) => run.store == store,
    }
}

proof fn lemma_drive_sound(
    store: Seq<RecordView>,
    pending: PendingView,
    base: Seq<char>,
    fresh: spec_fn(nat) -> Seq<char>,
    next: nat,
)
    ensures
        run_is_sound(
            store,
            base,
            pending.target,
            drive(store, StepView::Insert(pending), base, fresh, next),
        ),
    decreases pending.attempts_left,
{
    reveal_with_fuel(drive, 2);
    let (after, outcome) = insert_if_absent(store, pending.token, pending.target);
    let step = after_insert_spec(pending, outcome, base, fresh(next));
    if let StepView::Insert(retry) = step {
        lemma_drive_sound(after, retry, base, fresh, next + 1);
    }
}

/// Every create request either appends one record under a free token and
/// succeeds with it, or leaves the store as it was and fails. Unique tokens
/// stay unique.
pub proof fn lemma_create_sound(store: Seq<RecordView>, base: Seq<char>, call: CreateCall)
    ensures
        run_is_sound(store, base, call.target, create_run(store, base, call)),
        unique_tokens(store) ==> unique_tokens(create_run(store, base, call).store),
{
    let first = begin_spec(valid_url(call.target), call.target, call.custom, (call.fresh)(0));
    if let StepView::Insert(pending) = first {
        lemma_drive_sound(store, pending, base, call.fresh, 1);
    }
    if let Ok(created) = create_run(store, base, call).result {
        lemma_insert_then_find(store, created.token, call.target);
    }
}

proof fn lemma_drive_succeeds(
    store: Seq<RecordView>,
    pending: PendingView,
    base: Seq<char>,
    fresh: spec_fn(nat) -> Seq<char>,
    next: nat,
    free: nat,
)
    requires
        !pending.custom,
        next >= 1,
        free < next + pending.attempts_left,
        free >= next - 1,
        free == next - 1 ==> !holds(store, pending.token),
        free >= next ==> !holds(store, fresh(free)),
    ensures
        drive(store, StepView::Insert(pending), base, fresh, next).result is Ok,
    decreases pending.attempts_left,
{
    reveal_with_fuel(drive, 2);
    if holds(store, pending.token) {
        let retry = PendingView {
            token: fresh(next),
            target: pending.target,
            custom: false,
            attempts_left: (pending.attempts_left - 1) as nat,
        };
        lemma_drive_succeeds(store, retry, base, fresh, next + 1, free);
    }
}

/// A request with a valid target and no custom token succeeds, and its token
/// then resolves to its target, provided that one of the tokens that the
/// generator may be asked for is free. (Where every one of them is taken,
/// the request ends in `ExhaustedRetries`.)
pub proof fn law_created_token_resolves(store: Seq<RecordView>, base: Seq<char>, call: CreateCall)
    requires
        valid_url(call.target),
        call.custom is None,
        exists|k: nat| k < MAX_ATTEMPTS && !holds(store, #[trigger] (call.fresh)(k)),
    ensures
        create_run(store, base, call).result matches Ok(created) && resolve_spec(
            find_by_token(create_run(store, base, call).store, created.token),
        ) == Ok::<Seq<char>, ServiceError>(call.target),
{
    let free = choose|k: nat| k < MAX_ATTEMPTS && !holds(store, #[trigger] (call.fresh)(k));
    let pending = PendingView {
        token: (call.fresh)(0),
        target: call.target,
        custom: false,
        attempts_left: (MAX_ATTEMPTS - 1) as nat,
    };
    lemma_drive_succeeds(store, pending, base, call.fresh, 1, free);
    lemma_create_sound(store, base, call);
    let created = create_run(store, base, call).result->Ok_0;
    lemma_insert_then_find(store, created.token, call.target);
}

proof fn lemma_drive_exhausts(
    store: Seq<RecordView>,
    pending: PendingView,
    base: Seq<char>,
    fresh: spec_fn(nat) -> Seq<char>,
    next: nat,
)
    requires
        !pending.custom,
        holds(store, pending.token),
        forall|k: nat| next <= k < next + pending.attempts_left ==> holds(store, #[trigger] fresh(k)),
    ensures
        drive(store, StepView::Insert(pending), base, fresh, next) == (Run {
            store,
            result: Err(ServiceError::ExhaustedRetries),
        }),
    decreases pending.attempts_left,
{
    reveal_with_fuel(drive, 2);
    if pending.attempts_left > 0 {
        let retry = PendingView {
            token: fresh(next),
            target: pending.target,
            custom: false,
            attempts_left: (pending.attempts_left - 1) as nat,
        };
        lemma_drive_exhausts(store, retry, base, fresh, next + 1);
    }
}

/// A request with a valid target and no custom token gives up with
/// `ExhaustedRetries`, and leaves the store as it was, where every token
/// that the generator may be asked for is taken.
pub proof fn law_gives_up_when_all_taken(store: Seq<RecordView>, base: Seq<char>, call: CreateCall)
    requires
        valid_url(call.target),
        call.custom is None,
        forall|k: nat| k < MAX_ATTEMPTS ==> holds(store, #[trigger] (call.fresh)(k)),
    ensures
        create_run(store, base, call) == (Run {
            store,
            result: Err(ServiceError::ExhaustedRetries),
        }),
{
    let pending = PendingView {
        token: (call.fresh)(0),
        target: call.target,
        custom: false,
        attempts_left: (MAX_ATTEMPTS - 1) as nat,
    };
    lemma_drive_exhausts(store, pending, base, call.fresh, 1);
}

/// Creating twice under one custom token that was free: the first request
/// succeeds with that token, the second is a conflict and changes nothing,
/// and the token still resolves to the first target.
pub proof fn law_custom_token_taken_once(
    store: Seq<RecordView>,
    base: Seq<char>,
    first: CreateCall,
    second: CreateCall,
    token: Seq<char>,
)
    requires
        valid_url(first.target),
        valid_url(second.target),
        first.custom == Some(token),
        second.custom == Some(token),
        !holds(store, token),
    ensures
        ({
            let one = create_run(store, base, first);
            let two = create_run(one.store, base, second);
            &&& one.result == Ok::<CreatedView, ServiceError>(
                CreatedView { token, url: short_url_of(base, token) },
            )
            &&& two.result == Err::<CreatedView, ServiceError>(ServiceError::Conflict)
            &&& two.store == one.store
            &&& resolve_spec(find_by_token(two.store, token)) == Ok::<Seq<char>, ServiceError>(
                first.target,
            )
        }),
{
    reveal_with_fuel(drive, 2);
    lemma_insert_then_find(store, token, first.target);
    let one = create_run(store, base, first);
    assert(one.store == store.push(RecordView { token, target: first.target }));
    assert(holds(one.store, token));
    assert(insert_if_absent(one.store, token, second.target).1 == InsertOutcome::AlreadyExists);
}

/// A request with an invalid target fails with `InvalidInput` and leaves the
/// store as it was, whether or not a custom token came with it.
pub proof fn law_invalid_target_rejected(store: Seq<RecordView>, base: Seq<char>, call: CreateCall)
    requires
        !valid_url(call.target),
    ensures
        create_run(store, base, call) == (Run {
            store,
            result: Err(ServiceError::InvalidInput),
        }),
{
}

proof fn lemma_replay_take(base: Seq<char>, calls: Seq<CreateCall>)
    requires
        calls.len() > 0,
    ensures
        result_at(base, calls, calls.len() - 1) == create_run(
            replay(base, calls.drop_last()),
            base,
            calls.last(),
        ).result,
        forall|i: int|
            0 <= i < calls.len() - 1 ==> #[trigger] result_at(base, calls.drop_last(), i)
                == result_at(base, calls, i),
{
    assert(calls.take(calls.len() - 1) =~= calls.drop_last());
    assert forall|i: int| 0 <= i < calls.len() - 1 implies #[trigger] result_at(
        base,
        calls.drop_last(),
        i,
    ) == result_at(base, calls, i) by {
        assert(calls.drop_last().take(i) =~= calls.take(i));
    }
}

/// A token that no successful request of the history returned resolves to
/// `NotFound`.
pub proof fn law_unissued_token_not_found(
    base: Seq<char>,
    calls: Seq<CreateCall>,
    token: Seq<char>,
)
    requires
        forall|i: int|
            0 <= i < calls.len() ==> (#[trigger] result_at(base, calls, i) matches Ok(created)
                ==> created.token != token),
    ensures
        !holds(replay(base, calls), token),
        resolve_spec(find_by_token(replay(base, calls), token)) == Err::<
            Seq<char>,
            ServiceError,
        >(ServiceError::NotFound),
    decreases calls.len(),
{
    if calls.len() > 0 {
        let earlier = calls.drop_last();
        lemma_replay_take(base, calls);
        assert forall|i: int| 0 <= i < earlier.len() implies (#[trigger] result_at(
            base,
            earlier,
            i,
        ) matches Ok(created) ==> created.token != token) by {
            assert(result_at(base, earlier, i) == result_at(base, calls, i));
        }
        law_unissued_token_not_found(base, earlier, token);
        let before = replay(base, earlier);
        lemma_create_sound(before, base, calls.last());
        let run = create_run(before, base, calls.last());
        assert(run.result == result_at(base, calls, calls.len() - 1));
        if let Ok(created) = run.result {
            lemma_insert_then_find(before, created.token, calls.last().target);
        }
    }
}

/// After a history of requests the store holds one record for each request
/// that succeeded and no token twice, and the listing has one entry for each
/// record, of the form base, slash, token.
pub proof fn law_listing_counts_creates(base: Seq<char>, calls: Seq<CreateCall>)
    ensures
        unique_tokens(replay(base, calls)),
        replay(base, calls).len() == successes(base, calls),
        list_spec(base, replay(base, calls)).len() == successes(base, calls),
        forall|i: int|
            0 <= i < successes(base, calls) ==> #[trigger] list_spec(base, replay(base, calls))[i]
                == short_url_of(base, replay(base, calls)[i].token),
    decreases calls.len(),
{
    if calls.len() > 0 {
        law_listing_counts_creates(base, calls.drop_last());
        lemma_replay_take(base, calls);
        lemma_create_sound(replay(base, calls.drop_last()), base, calls.last());
    }
}

/// In a store of unique tokens every listed record resolves to its own
/// target.
pub proof fn law_listed_token_resolves(store: Seq<RecordView>, i: int)
    requires
        unique_tokens(store),
        0 <= i < store.len(),
    ensures
        resolve_spec(find_by_token(store, store[i].token)) == Ok::<Seq<char>, ServiceError>(
            store[i].target,
        ),
{
    lemma_find_is_the_record(store, i);
}

} // verus!
