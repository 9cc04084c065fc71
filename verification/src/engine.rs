//! What the engine reports back, and what each report means for the image it
//! is about.

use crate::errors::TesseractError;
use crate::file_types::OutputFileFormat;
use crate::outcome::{
    lemma_one_failure_drops_one,
    outcome_view,
    outcomes_view,
    successes,
    RecognitionOutcome,
};
use crate::utils::{decode_lossy, lemma_lenient_text_of_utf8, lenient_text};
use vstd::prelude::*;
use vstd::utf8::encode_utf8;

verus! {

/// How far an engine has come.
#[derive(Debug, Clone, Copy, PartialEq, Eq, Structural)]
pub enum EngineState {
    /// The engine has not answered the request to initialise yet.
    Uninitialized,
    /// The engine initialised and serves recognition calls.
    Ready,
    /// The engine refused to initialise. Nothing brings it back.
    Failed,
}

/// What came of asking the engine to read one image.
#[derive(Debug, Clone, PartialEq, Eq)]
pub enum EngineReply {
    /// The image could not be opened or decoded; the engine still holds the
    /// image it held before.
    Unreadable,
    /// The engine took the image and its extraction call gave nothing back.
    NoText,
    /// The engine took the image and gave this text back, as the bytes of a
    /// C string without the closing NUL.
    Text(Vec<u8>),
}

/// A reply with its text taken as a sequence of bytes.
pub enum ReplyView {
    Unreadable,
    NoText,
    Text(Seq<u8>),
}

impl View for EngineReply {
    type V = ReplyView;

    open spec fn view(&self) -> ReplyView {
        match self {
            EngineReply::Unreadable => ReplyView::Unreadable,
            EngineReply::NoText => ReplyView::NoText,
            EngineReply::Text(bytes) => ReplyView::Text(bytes@),
        }
    }
}

impl ReplyView {
    /// Whether the engine took the image.
    pub open spec fn decoded(self) -> bool {
        !(self is Unreadable)
    }

    /// What the reply holds for the caller: the text, read leniently as
    /// UTF-8, or the failure that stands for its absence.
    pub open spec fn text(self) -> Result<Seq<char>, TesseractError> {
        match self {
            ReplyView::Unreadable => Err(TesseractError::NoSuchFileException),
            ReplyView::NoText => Err(TesseractError::TesseracRuntimeError),
            ReplyView::Text(bytes) => Ok(lenient_text(bytes)),
        }
    }
}

impl EngineReply {
    /// Whether the engine took the image.
    pub fn image_decoded(&self) -> (yes: bool)
        ensures
            yes == self@.decoded(),
    {
        match self {
            EngineReply::Unreadable => false,
            _ => true,
        }
    }

    /// Reads the reply: the text, or the failure that stands for its absence.
    pub fn text(&self) -> (outcome: RecognitionOutcome)
        ensures
            outcome_view(outcome) == self@.text(),
    {
        match self {
            EngineReply::Unreadable => Err(TesseractError::NoSuchFileException),
            EngineReply::NoText => Err(TesseractError::TesseracRuntimeError),
            EngineReply::Text(bytes) => Ok(decode_lossy(bytes.as_slice())),
        }
    }
}

/// What an engine makes of one image, whatever the format: an engine that is
/// not ready fails the image; on a ready engine the engine's answer decides.
pub open spec fn answered(ready: bool, reply: ReplyView) -> Result<Seq<char>, TesseractError> {
    if ready {
        reply.text()
    } else {
        Err(TesseractError::TesseractInitError)
    }
}

/// The outcome of recognising one image in format `output`, on an engine
/// that is `ready` or not, when the engine's answer is `reply`. A format
/// without an extraction call is refused before the engine is looked at.
pub open spec fn recognized(ready: bool, output: OutputFileFormat, reply: ReplyView) -> Result<
    Seq<char>,
    TesseractError,
> {
    if output.extractable() {
        answered(ready, reply)
    } else {
        Err(TesseractError::UnsupportedFormat)
    }
}

/// A batch as the driver of the engine hands it over: for each image its
/// location and the engine's answer for it.
pub open spec fn batch_view(image_array: Seq<(&str, EngineReply)>) -> Seq<(Seq<char>, ReplyView)> {
    image_array.map_values(|image: (&str, EngineReply)| (image.0@, image.1@))
}

/// The outcomes of a batch: one for each image, at the position of the
/// image, decided by the engine's answer for that image.
pub open spec fn batch_outcomes(
    ready: bool,
    output: OutputFileFormat,
    batch: Seq<(Seq<char>, ReplyView)>,
) -> Seq<Result<Seq<char>, TesseractError>> {
    batch.map_values(|image: (Seq<char>, ReplyView)| recognized(ready, output, image.1))
}

/// Decides the outcome of recognising one image from the engine's answer.
pub fn outcome_of(ready: bool, output: OutputFileFormat, reply: &EngineReply) -> (outcome:
    RecognitionOutcome)
    ensures
        outcome_view(outcome) == recognized(ready, output, reply@),
{
    if !output.is_extractable() {
        Err(TesseractError::UnsupportedFormat)
    } else if ready {
        reply.text()
    } else {
        Err(TesseractError::TesseractInitError)
    }
}

/// Decides the outcomes of a whole batch, in the order of the images.
pub fn outcomes_of(ready: bool, output: OutputFileFormat, image_array: &Vec<(&str, EngineReply)>) -> (doc:
    Vec<RecognitionOutcome>)
    ensures
        outcomes_view(doc@) == batch_outcomes(ready, output, batch_view(image_array@)),
{
    let mut doc: Vec<RecognitionOutcome> = Vec::new();
    let ghost batch = batch_view(image_array@);
    let mut i: usize = 0;
    while i < image_array.len()
        invariant
            i <= image_array@.len(),
            batch == batch_view(image_array@),
            doc@.len() == i,
            outcomes_view(doc@) == batch_outcomes(ready, output, batch.take(i as int)),
        decreases image_array@.len() - i,
    {
        let outcome = outcome_of(ready, output, &image_array[i].1);
        let ghost before = doc@;
        doc.push(outcome);
        proof {
            let now = outcomes_view(doc@);
            let due = batch_outcomes(ready, output, batch.take(i + 1));
            assert forall|j: int| 0 <= j < now.len() implies now[j] == due[j] by {
                if j < i {
                    assert(outcomes_view(before)[j] == outcome_view(before[j]));
                }
            }
        }
        i += 1;
    }
    doc
}

/// A batch has one outcome for each image, and the outcome at a position is
/// the one that the engine's answer for the image at that position decides.
pub proof fn lemma_outcomes_follow_images(
    ready: bool,
    output: OutputFileFormat,
    batch: Seq<(Seq<char>, ReplyView)>,
    i: int,
)
    requires
        0 <= i < batch.len(),
    ensures
        batch_outcomes(ready, output, batch).len() == batch.len(),
        batch_outcomes(ready, output, batch)[i] == recognized(ready, output, batch[i].1),
{
}

/// The outcome of an image depends on the engine's answer for that image
/// alone: whatever becomes of the other images of the batch, and however
/// many there are, it stays the same.
pub proof fn lemma_failures_stay_local(
    ready: bool,
    output: OutputFileFormat,
    batch: Seq<(Seq<char>, ReplyView)>,
    other: Seq<(Seq<char>, ReplyView)>,
    i: int,
)
    requires
        0 <= i < batch.len(),
        i < other.len(),
        batch[i].1 == other[i].1,
    ensures
        batch_outcomes(ready, output, batch)[i] == batch_outcomes(ready, output, other)[i],
{
}

/// On a ready engine and in a format it can extract, an image fails only for
/// reasons of its own: it could not be read, or the engine gave no text.
pub proof fn lemma_image_failures(output: OutputFileFormat, reply: ReplyView)
    requires
        output.extractable(),
    ensures
        recognized(true, output, reply) is Err <==> !(reply is Text),
        recognized(true, output, reply) matches Err(e) ==> e.is_per_image(),
{
}

/// When the engine reads every image of a batch but one, the batch yields
/// one text fewer than it has images: the texts of the images that were
/// read, in the order of the images.
pub proof fn lemma_one_image_fails(
    output: OutputFileFormat,
    batch: Seq<(Seq<char>, ReplyView)>,
    failed: int,
)
    requires
        output.extractable(),
        0 <= failed < batch.len(),
        !(batch[failed].1 is Text),
        forall|i: int| 0 <= i < batch.len() && i != failed ==> batch[i].1 is Text,
    ensures
        successes(batch_outcomes(true, output, batch)).len() == batch.len() - 1,
        forall|i: int|
            0 <= i < failed ==> successes(batch_outcomes(true, output, batch))[i] == lenient_text(
                batch[i].1->Text_0,
            ),
        forall|i: int|
            failed <= i < batch.len() - 1 ==> successes(batch_outcomes(true, output, batch))[i]
                == lenient_text(batch[i + 1].1->Text_0),
{
    lemma_one_failure_drops_one(batch_outcomes(true, output, batch), failed);
}

/// What the engine wrote is what the caller reads: a text that the engine
/// hands back as UTF-8 comes out of the recognition as it went in.
pub proof fn lemma_text_passes_through(output: OutputFileFormat, text: Seq<char>)
    requires
        output.extractable(),
    ensures
        recognized(true, output, ReplyView::Text(encode_utf8(text))) == Ok::<
            Seq<char>,
            TesseractError,
        >(text),
{
    lemma_lenient_text_of_utf8(text);
}

/// No deadline is kept: whatever the engine answers, and whenever, no
/// recognition ends as timed out.
pub proof fn lemma_no_deadline(ready: bool, output: OutputFileFormat, reply: ReplyView)
    ensures
        !(recognized(ready, output, reply) matches Err(e) && e is TesseractTimeoutError),
{
}

} // verus!
