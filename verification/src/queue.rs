//! The ordered queue of ready-made futures through which a batch is collected.
//!
//! Everything here is a statement about the `futures` crate that is taken on
//! trust: the types are opaque to the verifier and the functions are believed
//! to do what their contracts say.

use crate::errors::TesseractError;
use crate::outcome::{outcome_view, outcomes_view, RecognitionOutcome};
use futures::FutureExt;
use futures::StreamExt;
use futures::future::Ready;
use futures::stream::FuturesOrdered;
use std::future::Future;
use vstd::prelude::*;

verus! {

/// `futures::future::Ready`: a future that holds its value from the start.
#[verifier::external_type_specification]
#[verifier::external_body]
#[verifier::reject_recursive_types(T)]
pub struct ExReady<T>(Ready<T>);

/// `futures::stream::FuturesOrdered`: a queue of futures that yields their
/// values in the order in which the futures were pushed.
#[verifier::external_type_specification]
#[verifier::external_body]
#[verifier::reject_recursive_types(Fut)]
pub struct ExFuturesOrdered<Fut: Future>(FuturesOrdered<Fut>);

/// The outcomes that the futures of a queue resolve to, oldest first.
pub uninterp spec fn queued(queue: FuturesOrdered<Ready<RecognitionOutcome>>) -> Seq<
    Result<Seq<char>, TesseractError>,
>;

/// `FuturesOrdered::new`: a queue that holds no future.
#[verifier::external_body]
pub(crate) fn new_queue() -> (queue: FuturesOrdered<Ready<RecognitionOutcome>>)
    ensures
        queued(queue).len() == 0,
{
    FuturesOrdered::new()
}

/// `FuturesOrdered::push_back`, handed the future that
/// `futures::future::ready` makes of the outcome: a future that resolves to
/// the outcome joins the queue behind those already in it.
#[verifier::external_body]
pub(crate) fn push_back(
    queue: &mut FuturesOrdered<Ready<RecognitionOutcome>>,
    outcome: RecognitionOutcome,
)
    ensures
        queued(*final(queue)) == queued(*old(queue)).push(outcome_view(outcome)),
{
    queue.push_back(futures::future::ready(outcome))
}

/// `StreamExt::collect` into a `Vec`, polled once with
/// `FutureExt::now_or_never`. When the poll completes, the values come out in
/// the order of the queue. Nothing is claimed of when it completes: the caller
/// provides for a poll that does not.
#[verifier::external_body]
pub(crate) fn collect_now(queue: FuturesOrdered<Ready<RecognitionOutcome>>) -> (collected: Option<
    Vec<RecognitionOutcome>,
>)
    ensures
        collected matches Some(doc) ==> outcomes_view(doc@) == queued(queue),
{
    queue.collect::<Vec<RecognitionOutcome>>().now_or_never()
}

} // verus!
