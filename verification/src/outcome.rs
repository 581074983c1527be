//! Sequences of outcomes: the first error, or every value.

use vstd::prelude::*;
use crate::first::{first, is_first, lemma_first_at, lemma_first_is_some_iff, lemma_first_none};

verus! {

/// The mathematical model of an outcome: that of its value, or that of its error.
pub open spec fn outcome_view<T: DeepView, E: DeepView>(outcome: Result<T, E>) -> Result<T::V, E::V> {
    match outcome {
        Ok(value) => Ok(value.deep_view()),
        Err(error) => Err(error.deep_view()),
    }
}

/// The condition that an outcome is an error.
pub open spec fn is_err<T, E>() -> spec_fn(Result<T, E>) -> bool {
    |outcome: Result<T, E>| outcome is Err
}

/// Every outcome is a value.
pub open spec fn all_ok<T, E>(outcomes: Seq<Result<T, E>>) -> bool {
    forall|i: int| 0 <= i < outcomes.len() ==> (#[trigger] outcomes[i]) is Ok
}

/// The values of the outcomes, in order.
pub open spec fn values<T, E>(outcomes: Seq<Result<T, E>>) -> Seq<T> {
    Seq::new(outcomes.len(), |i: int| outcomes[i]->Ok_0)
}

/// The first error among the outcomes, or else the values of all of them in order.
pub open spec fn collect<T, E>(outcomes: Seq<Result<T, E>>) -> Result<Seq<T>, E> {
    match first(outcomes, is_err()) {
        Some(i) => Err(outcomes[i]->Err_0),
        None => Ok(values(outcomes)),
    }
}

/// Where the outcome at `i` is an error and all before it are values, collecting gives
/// that error.
pub proof fn lemma_collect_err<T, E>(outcomes: Seq<Result<T, E>>, i: int)
    requires
        0 <= i < outcomes.len(),
        outcomes[i] is Err,
        forall|j: int| 0 <= j < i ==> (#[trigger] outcomes[j]) is Ok,
    ensures
        is_first(outcomes, is_err(), i),
        collect(outcomes) == Err::<Seq<T>, E>(outcomes[i]->Err_0),
{
    assert forall|j: int| 0 <= j < i implies !#[trigger] is_err::<T, E>()(outcomes[j]) by {
        assert(outcomes[j] is Ok);
    }
    lemma_first_at(outcomes, is_err(), i);
}

/// Where every outcome is a value, collecting gives the values.
pub proof fn lemma_collect_ok<T, E>(outcomes: Seq<Result<T, E>>)
    requires
        all_ok(outcomes),
    ensures
        collect(outcomes) == Ok::<Seq<T>, E>(values(outcomes)),
{
    assert forall|i: int| 0 <= i < outcomes.len() implies !#[trigger] is_err::<T, E>()(
        outcomes[i],
    ) by {
        assert(outcomes[i] is Ok);
    }
    lemma_first_none(outcomes, is_err());
}

/// Collecting fails exactly where some outcome is an error, and then with the first one.
pub proof fn lemma_collect_fails_iff<T, E>(outcomes: Seq<Result<T, E>>)
    ensures
        collect(outcomes) is Err <==> !all_ok(outcomes),
        collect(outcomes) is Err ==> (first(outcomes, is_err()) matches Some(i) && is_first(
            outcomes,
            is_err(),
            i,
        ) && collect(outcomes) == Err::<Seq<T>, E>(outcomes[i]->Err_0)),
{
    lemma_first_is_some_iff(outcomes, is_err());
    if all_ok(outcomes) {
        lemma_collect_ok(outcomes);
    } else {
        let i = choose|i: int| 0 <= i < outcomes.len() && !((#[trigger] outcomes[i]) is Ok);
        assert(is_err::<T, E>()(outcomes[i]));
    }
}

} // verus!
