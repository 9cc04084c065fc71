//! What recognising one image gives, and how a batch of such results is
//! reduced to the texts that were read.

use crate::errors::TesseractError;
use crate::utils::texts_view;
use vstd::prelude::*;

verus! {

/// The result of recognising one image: the text, or why there is none.
pub type RecognitionOutcome = Result<String, TesseractError>;

/// An outcome with its text taken as a sequence of characters.
pub open spec fn outcome_view(outcome: RecognitionOutcome) -> Result<Seq<char>, TesseractError> {
    match outcome {
        Ok(text) => Ok(text@),
        Err(e) => Err(e),
    }
}

/// The outcomes of a batch, each taken by its view.
pub open spec fn outcomes_view(outcomes: Seq<RecognitionOutcome>) -> Seq<
    Result<Seq<char>, TesseractError>,
> {
    outcomes.map_values(|o: RecognitionOutcome| outcome_view(o))
}

/// The text of a successful outcome, nothing for a failed one.
pub open spec fn success(outcome: Result<Seq<char>, TesseractError>) -> Option<Seq<char>> {
    match outcome {
        Ok(text) => Some(text),
        Err(_) => None,
    }
}

/// The texts of the successful outcomes, in the order of the batch. Failed
/// outcomes leave no trace.
pub open spec fn successes(outcomes: Seq<Result<Seq<char>, TesseractError>>) -> Seq<Seq<char>> {
    outcomes.filter_map(|o: Result<Seq<char>, TesseractError>| success(o))
}

/// Drops the failed outcomes of a batch and keeps the texts of the others,
/// in the order of the batch.
pub fn successful_texts(doc: Vec<RecognitionOutcome>) -> (texts: Vec<String>)
    ensures
        texts_view(texts@) == successes(outcomes_view(doc@)),
{
    let mut texts: Vec<String> = Vec::new();
    let ghost all = outcomes_view(doc@);
    let ghost pick = |o: Result<Seq<char>, TesseractError>| success(o);
    for outcome in it: doc
        invariant
            it.seq() == doc@,
            all == outcomes_view(doc@),
            pick == |o: Result<Seq<char>, TesseractError>| success(o),
            texts_view(texts@) == all.take(it.index() as int).filter_map(pick),
    {
        proof {
            all.lemma_filter_map_take_succ(pick, it.index() as int);
        }
        if let Ok(text) = outcome {
            texts.push(text);
        }
    }
    proof {
        assert(all.take(doc@.len() as int) =~= all);
    }
    texts
}

/// A batch without a failure keeps every text, each at the position of its
/// image.
pub proof fn lemma_no_failure_keeps_all(outcomes: Seq<Result<Seq<char>, TesseractError>>)
    requires
        forall|i: int| 0 <= i < outcomes.len() ==> outcomes[i] is Ok,
    ensures
        successes(outcomes).len() == outcomes.len(),
        forall|i: int| 0 <= i < outcomes.len() ==> successes(outcomes)[i] == outcomes[i]->Ok_0,
    decreases outcomes.len(),
{
    if outcomes.len() > 0 {
        lemma_no_failure_keeps_all(outcomes.drop_last());
    }
}

/// A batch in which exactly one image failed keeps one text fewer than it
/// has images: the texts of the other images, in the order of the images.
/// Those before the failed image keep their position, those after it move up
/// by one.
pub proof fn lemma_one_failure_drops_one(
    outcomes: Seq<Result<Seq<char>, TesseractError>>,
    failed: int,
)
    requires
        0 <= failed < outcomes.len(),
        outcomes[failed] is Err,
        forall|i: int| 0 <= i < outcomes.len() && i != failed ==> outcomes[i] is Ok,
    ensures
        successes(outcomes).len() == outcomes.len() - 1,
        forall|i: int| 0 <= i < failed ==> successes(outcomes)[i] == outcomes[i]->Ok_0,
        forall|i: int|
            failed <= i < outcomes.len() - 1 ==> successes(outcomes)[i] == outcomes[i + 1]->Ok_0,
    decreases outcomes.len(),
{
    let rest = outcomes.drop_last();
    if failed == outcomes.len() - 1 {
        lemma_no_failure_keeps_all(rest);
    } else {
        lemma_one_failure_drops_one(rest, failed);
    }
}

/// Dropping the failures never makes up a text: what is kept is no longer
/// than the batch, and a failure at the end of a batch changes nothing.
pub proof fn lemma_failure_leaves_no_trace(
    outcomes: Seq<Result<Seq<char>, TesseractError>>,
    e: TesseractError,
)
    ensures
        successes(outcomes).len() <= outcomes.len(),
        successes(outcomes.push(Err(e))) == successes(outcomes),
    decreases outcomes.len(),
{
    assert(outcomes.push(Err(e)).drop_last() =~= outcomes);
    if outcomes.len() > 0 {
        lemma_failure_leaves_no_trace(outcomes.drop_last(), e);
    }
}

} // verus!
