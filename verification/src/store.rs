//! The store as the service sees it: a sequence of records in which no token
//! occurs twice, with the three operations that the service asks of it.
//!
//! The store itself lives outside this library. These functions say what an
//! answering store does, so that the service's behaviour over several calls
//! can be stated.

use vstd::prelude::*;
use crate::model::{InsertOutcome, LookupView, RecordView};

verus! {

/// Whether some record of `store` has `token`.
pub open spec fn holds(store: Seq<RecordView>, token: Seq<char>) -> bool {
    exists|i: int| 0 <= i < store.len() && (#[trigger] store[i]).token == token
}

/// No token occurs in two records.
pub open spec fn unique_tokens(store: Seq<RecordView>) -> bool {
    forall|i: int, j: int|
        0 <= i < j < store.len() ==> (#[trigger] store[i]).token != (#[trigger] store[j]).token
}

/// The answer to a lookup: a record with `token`, or `Absent`.
pub open spec fn find_by_token(store: Seq<RecordView>, token: Seq<char>) -> LookupView {
    if holds(store, token) {
        LookupView::Found(
            store[choose|i: int| 0 <= i < store.len() && (#[trigger] store[i]).token == token],
        )
    } else {
        LookupView::Absent
    }
}

/// The answer to a conditional insert, and the store after it: the record
/// is appended iff no record has its token.
pub open spec fn insert_if_absent(store: Seq<RecordView>, token: Seq<char>, target: Seq<char>) -> (
    Seq<RecordView>,
    InsertOutcome,
) {
    if holds(store, token) {
        (store, InsertOutcome::AlreadyExists)
    } else {
        (store.push(RecordView { token, target }), InsertOutcome::Inserted)
    }
}

/// An insert that succeeded makes its record the one that a lookup finds,
/// keeps the tokens unique, and leaves every other token as it was.
pub proof fn lemma_insert_then_find(store: Seq<RecordView>, token: Seq<char>, target: Seq<char>)
    requires
        !holds(store, token),
    ensures
        insert_if_absent(store, token, target).1 == InsertOutcome::Inserted,
        find_by_token(insert_if_absent(store, token, target).0, token) == LookupView::Found(
            RecordView { token, target },
        ),
        unique_tokens(store) ==> unique_tokens(insert_if_absent(store, token, target).0),
        forall|other: Seq<char>|
            other != token ==> holds(insert_if_absent(store, token, target).0, other) == holds(
                store,
                other,
            ),
{
    let record = RecordView { token, target };
    let after = store.push(record);
    assert(after[store.len() as int] == record);
    assert(holds(after, token));
    let found = choose|i: int| 0 <= i < after.len() && (#[trigger] after[i]).token == token;
    if found < store.len() {
        assert(store[found].token == token);
    }
    assert forall|other: Seq<char>| other != token implies holds(after, other) == holds(
        store,
        other,
    ) by {
        if holds(store, other) {
            let i = choose|i: int| 0 <= i < store.len() && (#[trigger] store[i]).token == other;
            assert(after[i].token == other);
        }
        if holds(after, other) {
            let i = choose|i: int| 0 <= i < after.len() && (#[trigger] after[i]).token == other;
            assert(store[i].token == other);
        }
    }
    if unique_tokens(store) {
        assert forall|i: int, j: int| 0 <= i < j < after.len() implies (#[trigger] after[i]).token
            != (#[trigger] after[j]).token by {
            if j < store.len() {
                assert(store[i].token != store[j].token);
            } else {
                assert(store[i].token != token);
            }
        }
    }
}

/// In a store of unique tokens a lookup finds exactly the record that holds
/// the token.
pub proof fn lemma_find_is_the_record(store: Seq<RecordView>, i: int)
    requires
        unique_tokens(store),
        0 <= i < store.len(),
    ensures
        find_by_token(store, store[i].token) == LookupView::Found(store[i]),
{
    let token = store[i].token;
    assert(holds(store, token));
    let found = choose|k: int| 0 <= k < store.len() && (#[trigger] store[k]).token == token;
    if found < i {
        assert(store[found].token != store[i].token);
    } else if i < found {
        assert(store[i].token != store[found].token);
    }
}

} // verus!
