//! The engine handle and the recognition pipeline built on it.
//!
//! The engine itself runs outside this library. A handle records what the
//! engine was asked to be and how far it has come; every function that needs
//! something from the engine takes the engine's answer as an argument and
//! decides what follows from it.

use crate::constanst::TesseractDefaultConstants;
use crate::document::{
    destination,
    destination_spec,
    document_name,
    document_name_spec,
    saved_view,
    DocumentView,
    PersistedDocument,
};
use crate::engine::{
    answered,
    batch_outcomes,
    batch_view,
    outcomes_of,
    recognized,
    EngineReply,
    EngineState,
    ReplyView,
};
use crate::errors::TesseractError;
use crate::file_types::OutputFileFormat;
use crate::outcome::{outcome_view, outcomes_view, successes, successful_texts, RecognitionOutcome};
use crate::queue::{collect_now, new_queue, push_back, queued};
use crate::utils::{has_nul, join_lines, joined_lines, same_text, str_of, text_of, texts_view};
use either::Either;
use vstd::prelude::*;
use vstd::string::StringExecFns;

verus! {

/// `either::Either`, with its two variants as the crate defines them.
#[verifier::external_type_specification]
#[verifier::reject_recursive_types(L)]
#[verifier::reject_recursive_types(R)]
pub struct ExEither<L, R>(Either<L, R>);

/// The handle of one engine: its tuning parameters, where its data lives,
/// how far it has come and which image it holds.
#[derive(Debug, Clone, PartialEq, Eq)]
pub struct TesseractApi {
    /// Source resolution in dots per inch.
    pub dpi: i32,
    /// Page segmentation mode.
    pub psm: u32,
    /// Engine mode.
    pub oem: u32,
    /// Time budget of one recognition in seconds. Carried along for the
    /// engine's driver; nothing in this library enforces it, so a driver that
    /// sets no limit of its own lets one slow image hold up its whole batch.
    pub timeout: i32,
    /// Directory of the engine's data files; the engine's own choice if absent.
    pub datapath: Option<String>,
    /// Language identifier; the engine's own choice if absent.
    pub lang: Option<String>,
    /// How far the engine has come.
    pub state: EngineState,
    /// Location of the image that the engine currently holds.
    pub image: Option<String>,
}

/// A handle with its strings taken as sequences of characters.
pub struct ApiView {
    pub dpi: i32,
    pub psm: u32,
    pub oem: u32,
    pub timeout: i32,
    pub datapath: Option<Seq<char>>,
    pub lang: Option<Seq<char>>,
    pub state: EngineState,
    pub image: Option<Seq<char>>,
}

/// Whether an optional text is present and holds a NUL character.
pub open spec fn holds_nul(s: Option<Seq<char>>) -> bool {
    s matches Some(t) && t.contains('\0')
}

impl View for TesseractApi {
    type V = ApiView;

    open spec fn view(&self) -> ApiView {
        ApiView {
            dpi: self.dpi,
            psm: self.psm,
            oem: self.oem,
            timeout: self.timeout,
            datapath: text_of(self.datapath),
            lang: text_of(self.lang),
            state: self.state,
            image: text_of(self.image),
        }
    }
}

impl ApiView {
    /// The handle that nothing has been asked of yet, with the default
    /// tuning parameters.
    pub open spec fn initial() -> ApiView {
        ApiView {
            dpi: 300,
            psm: 4,
            oem: 3,
            timeout: 30,
            datapath: None,
            lang: None,
            state: EngineState::Uninitialized,
            image: None,
        }
    }

    /// A fresh handle with the tuning parameters of this one, for an engine
    /// that is to find its data at `datapath` and to read `lang`.
    pub open spec fn fresh(self, datapath: Option<Seq<char>>, lang: Option<Seq<char>>) -> ApiView {
        ApiView {
            dpi: self.dpi,
            psm: self.psm,
            oem: self.oem,
            timeout: self.timeout,
            datapath,
            lang,
            state: EngineState::Uninitialized,
            image: None,
        }
    }

    /// Whether the tuning parameters are ones an engine can make sense of:
    /// none of them below zero.
    pub open spec fn valid(self) -> bool {
        self.dpi >= 0 && self.timeout >= 0
    }

    /// Whether the engine serves recognition calls.
    pub open spec fn ready(self) -> bool {
        self.state is Ready
    }

    /// What holds of every handle that this library hands out: no string
    /// meant for the engine holds a NUL character, and only a ready engine
    /// holds an image.
    pub open spec fn wf(self) -> bool {
        &&& !holds_nul(self.datapath)
        &&& !holds_nul(self.lang)
        &&& self.image is Some ==> self.ready()
    }

    /// The handle after the engine has answered the request to initialise.
    /// Only a handle that still waits for the answer takes it.
    pub open spec fn confirmed(self, started: bool) -> ApiView {
        if self.state is Uninitialized {
            ApiView {
                state: if started {
                    EngineState::Ready
                } else {
                    EngineState::Failed
                },
                ..self
            }
        } else {
            self
        }
    }

    /// The handle after the engine was given the image at `filename`.
    pub open spec fn holding(self, filename: Seq<char>) -> ApiView {
        ApiView { image: Some(filename), ..self }
    }

    /// The handle after an attempt to give the engine the image at
    /// `filename`. A ready engine that could decode the image holds it from
    /// then on; in every other case nothing changes.
    pub open spec fn after_image(self, filename: Seq<char>, decoded: bool) -> ApiView {
        if self.ready() && decoded {
            self.holding(filename)
        } else {
            self
        }
    }

    /// The handle after one recognition. A format without an extraction call
    /// never gets as far as the image.
    pub open spec fn after_reply(
        self,
        output: OutputFileFormat,
        filename: Seq<char>,
        reply: ReplyView,
    ) -> ApiView {
        if output.extractable() {
            self.after_image(filename, reply.decoded())
        } else {
            self
        }
    }

    /// The handle after a batch: one recognition after the other, in the
    /// order of the images.
    pub open spec fn after_batch(
        self,
        output: OutputFileFormat,
        batch: Seq<(Seq<char>, ReplyView)>,
    ) -> ApiView
        decreases batch.len(),
    {
        if batch.len() == 0 {
            self
        } else {
            self.after_batch(output, batch.drop_last()).after_reply(
                output,
                batch.last().0,
                batch.last().1,
            )
        }
    }
}

/// An engine goes one way only: the answer to the request to initialise
/// settles it as ready or failed, once, and neither that answer given again
/// nor any recognition moves it from there.
pub proof fn lemma_lifecycle(
    api: ApiView,
    started: bool,
    output: OutputFileFormat,
    batch: Seq<(Seq<char>, ReplyView)>,
)
    ensures
        !(api.confirmed(started).state is Uninitialized),
        api.state is Uninitialized ==> (api.confirmed(started).ready() <==> started),
        !(api.state is Uninitialized) ==> api.confirmed(started) == api,
        api.after_batch(output, batch).state == api.state,
    decreases batch.len(),
{
    if batch.len() > 0 {
        lemma_lifecycle(api, started, output, batch.drop_last());
    }
}

/// A batch leaves of a handle everything but the image as it was, and the
/// handle well-formed if it was.
pub proof fn lemma_batch_changes_image_only(
    api: ApiView,
    output: OutputFileFormat,
    batch: Seq<(Seq<char>, ReplyView)>,
)
    ensures
        api.after_batch(output, batch) == (ApiView {
            image: api.after_batch(output, batch).image,
            ..api
        }),
        api.wf() ==> api.after_batch(output, batch).wf(),
    decreases batch.len(),
{
    if batch.len() > 0 {
        lemma_batch_changes_image_only(api, output, batch.drop_last());
    }
}

/// After a batch, a ready engine holds the last image of the batch that it
/// could decode.
pub proof fn lemma_batch_holds_last_decoded(
    api: ApiView,
    output: OutputFileFormat,
    batch: Seq<(Seq<char>, ReplyView)>,
    last: int,
)
    requires
        api.ready(),
        output.extractable(),
        0 <= last < batch.len(),
        batch[last].1.decoded(),
        forall|i: int| last < i < batch.len() ==> !batch[i].1.decoded(),
    ensures
        api.after_batch(output, batch) == api.holding(batch[last].0),
    decreases batch.len(),
{
    let rest = batch.drop_last();
    lemma_batch_changes_image_only(api, output, rest);
    if last < batch.len() - 1 {
        lemma_batch_holds_last_decoded(api, output, rest, last);
    }
}

/// A batch in which no image gets as far as the engine leaves the handle as
/// it was: the engine is not ready, or the format has no extraction call, or
/// no image could be decoded.
pub proof fn lemma_batch_without_image(
    api: ApiView,
    output: OutputFileFormat,
    batch: Seq<(Seq<char>, ReplyView)>,
)
    requires
        !api.ready() || !output.extractable() || forall|i: int|
            0 <= i < batch.len() ==> !batch[i].1.decoded(),
    ensures
        api.after_batch(output, batch) == api,
    decreases batch.len(),
{
    if batch.len() > 0 {
        lemma_batch_without_image(api, output, batch.drop_last());
    }
}

/// Recognition can be repeated: the same answer of the engine for the same
/// image gives the same outcome the second time as the first, and the second
/// time leaves the handle as the first left it. What the engine held before
/// plays no part.
pub proof fn lemma_recognition_repeats(
    api: ApiView,
    output: OutputFileFormat,
    filename: Seq<char>,
    reply: ReplyView,
)
    ensures
        recognized(api.after_reply(output, filename, reply).ready(), output, reply) == recognized(
            api.ready(),
            output,
            reply,
        ),
        api.after_reply(output, filename, reply).after_reply(output, filename, reply)
            == api.after_reply(output, filename, reply),
{
}

/// What a call of [`TesseractApi::recognize_doc`] hands back.
#[derive(Debug, Clone, PartialEq, Eq)]
pub struct RecognizedDoc {
    /// The texts of the images that were read, in the order of the images.
    pub texts: Vec<String>,
    /// What came of the request to keep the texts: nothing where none was
    /// made, else the document to write or the reason why there is none.
    pub saved: Option<Result<PersistedDocument, TesseractError>>,
}

/// A recognised batch with its strings taken as sequences of characters.
pub struct RecognizedView {
    pub texts: Seq<Seq<char>>,
    pub saved: Option<Result<DocumentView, TesseractError>>,
}

impl View for RecognizedDoc {
    type V = RecognizedView;

    open spec fn view(&self) -> RecognizedView {
        RecognizedView {
            texts: texts_view(self.texts@),
            saved: match self.saved {
                Some(saved) => Some(saved_view(saved)),
                None => None,
            },
        }
    }
}

/// The document that holds `texts`, or the failure to make one: there is a
/// document exactly when the directory it goes to exists.
pub open spec fn persisted(
    path: Option<Seq<char>>,
    file_name: Option<Seq<char>>,
    texts: Seq<Seq<char>>,
    working_dir: Seq<char>,
    directory_exists: bool,
) -> Result<DocumentView, TesseractError> {
    if directory_exists {
        Ok(
            DocumentView {
                directory: destination_spec(path, working_dir),
                file_name: document_name_spec(file_name),
                content: joined_lines(texts),
            },
        )
    } else {
        Err(TesseractError::DestinationNotFound)
    }
}

/// The format that a recognition is asked for by name, where the engine has
/// an extraction call for it.
pub open spec fn requested_format(output_type: Seq<char>) -> Option<OutputFileFormat> {
    match OutputFileFormat::named(output_type) {
        Some(format) => if format.extractable() {
            Some(format)
        } else {
            None
        },
        None => None,
    }
}

impl Default for TesseractApi {
    /// The default tuning parameters on a handle that nothing has been asked
    /// of yet.
    fn default() -> (api: TesseractApi)
        ensures
            api@ == ApiView::initial(),
            api@.valid(),
            api@.wf(),
    {
        TesseractApi {
            dpi: TesseractDefaultConstants::DEFAULT_DPI,
            psm: TesseractDefaultConstants::DEFAULT_PSM,
            oem: TesseractDefaultConstants::DEFAULT_OEM,
            timeout: TesseractDefaultConstants::DEFAULT_TIMEOUT,
            datapath: None,
            lang: None,
            state: EngineState::Uninitialized,
            image: None,
        }
    }
}

/// Copies an optional string slice into an optional string.
fn owned(s: Option<&str>) -> (r: Option<String>)
    ensures
        text_of(r) == str_of(s),
{
    match s {
        Some(t) => Some(String::from_str(t)),
        None => None,
    }
}

impl TesseractApi {
    /// The tuning parameter of a given name: `dpi` and `timeout` on the left,
    /// `psm` and `oem` on the right. Any other name gives, on the right, a
    /// message that quotes it.
    pub open spec fn attr_spec(self, field: Seq<char>, found: Either<
        Result<&i32, String>,
        Result<&u32, String>,
    >) -> bool {
        if field == "dpi"@ {
            found == Either::<Result<&i32, String>, Result<&u32, String>>::Left(Ok(&self.dpi))
        } else if field == "psm"@ {
            found == Either::<Result<&i32, String>, Result<&u32, String>>::Right(Ok(&self.psm))
        } else if field == "oem"@ {
            found == Either::<Result<&i32, String>, Result<&u32, String>>::Right(Ok(&self.oem))
        } else if field == "timeout"@ {
            found == Either::<Result<&i32, String>, Result<&u32, String>>::Left(Ok(&self.timeout))
        } else {
            found matches Either::Right(Err(message)) && message@ == "invalid field name to get '"@
                + field + "'"@
        }
    }

    /// Looks a tuning parameter up by its name.
    pub fn get_attr(&self, field_string: &str) -> (found: Either<
        Result<&i32, String>,
        Result<&u32, String>,
    >)
        ensures
            self.attr_spec(field_string@, found),
    {
        if same_text(field_string, "dpi") {
            Either::Left(Ok(&self.dpi))
        } else if same_text(field_string, "psm") {
            Either::Right(Ok(&self.psm))
        } else if same_text(field_string, "oem") {
            Either::Right(Ok(&self.oem))
        } else if same_text(field_string, "timeout") {
            Either::Left(Ok(&self.timeout))
        } else {
            let mut message = String::from_str("invalid field name to get '");
            message.append(field_string);
            message.append("'");
            Either::Right(Err(message))
        }
    }

    /// Makes the handle of a new engine. The tuning parameters are those of
    /// `tesseract`, or the defaults without one; they are taken as they are.
    /// Fails only on a data path or a language that holds a NUL character,
    /// which cannot be handed to the engine.
    ///
    /// The handle waits for the engine's answer: see [`Self::confirm_init`].
    pub fn new(tesseract: Option<TesseractApi>, datapath: Option<&str>, lang: Option<&str>) -> (made:
        Result<TesseractApi, TesseractError>)
        ensures
            made is Err <==> holds_nul(str_of(datapath)) || holds_nul(str_of(lang)),
            made matches Err(e) ==> e == TesseractError::InvalidArgument,
            made matches Ok(api) ==> api@ == (match tesseract {
                Some(given) => given@,
                None => ApiView::initial(),
            }).fresh(str_of(datapath), str_of(lang)) && api@.wf(),
    {
        let bad_datapath = match datapath {
            Some(d) => has_nul(d),
            None => false,
        };
        let bad_lang = match lang {
            Some(l) => has_nul(l),
            None => false,
        };
        if bad_datapath || bad_lang {
            return Err(TesseractError::InvalidArgument);
        }
        let base = match tesseract {
            Some(given) => given,
            None => TesseractApi::default(),
        };
        Ok(
            TesseractApi {
                dpi: base.dpi,
                psm: base.psm,
                oem: base.oem,
                timeout: base.timeout,
                datapath: owned(datapath),
                lang: owned(lang),
                state: EngineState::Uninitialized,
                image: None,
            },
        )
    }

    /// Takes the engine's answer to the request to initialise: `started` says
    /// whether the engine came up. A handle that waited for the answer
    /// becomes ready or failed for good; any other handle stays as it is.
    /// Reports a failed engine, whenever it failed.
    pub fn confirm_init(&mut self, started: bool) -> (outcome: Result<(), TesseractError>)
        ensures
            final(self)@ == old(self)@.confirmed(started),
            outcome is Ok <==> final(self)@.ready(),
            outcome matches Err(e) ==> e == TesseractError::TesseractInitError,
            old(self)@.wf() ==> final(self)@.wf(),
    {
        match self.state {
            EngineState::Uninitialized => {
                if started {
                    self.state = EngineState::Ready;
                } else {
                    self.state = EngineState::Failed;
                }
            },
            _ => {},
        }
        match self.state {
            EngineState::Ready => Ok(()),
            _ => Err(TesseractError::TesseractInitError),
        }
    }

    /// Whether the tuning parameters are ones an engine can make sense of:
    /// none of them below zero. Nothing in this library depends on it; an
    /// engine may refuse to initialise with parameters that are not.
    pub fn is_valid(&self) -> (yes: bool)
        ensures
            yes == self@.valid(),
    {
        self.dpi >= 0 && self.timeout >= 0
    }

    /// Whether the engine serves recognition calls.
    pub fn is_ready(&self) -> (yes: bool)
        ensures
            yes == self@.ready(),
    {
        match self.state {
            EngineState::Ready => true,
            _ => false,
        }
    }

    /// Records an attempt to give the engine the image at `filename`;
    /// `decoded` says whether the image could be opened and decoded. An
    /// engine that is not ready takes no image. An image that could not be
    /// decoded is reported and leaves the engine with the image it had.
    pub fn set_image(&mut self, filename: &str, decoded: bool) -> (outcome: Result<
        (),
        TesseractError,
    >)
        ensures
            final(self)@ == old(self)@.after_image(filename@, decoded),
            outcome is Ok <==> old(self)@.ready() && decoded,
            outcome matches Err(e) ==> e == if old(self)@.ready() {
                TesseractError::NoSuchFileException
            } else {
                TesseractError::TesseractInitError
            },
            old(self)@.wf() ==> final(self)@.wf(),
    {
        if !self.is_ready() {
            Err(TesseractError::TesseractInitError)
        } else if !decoded {
            Err(TesseractError::NoSuchFileException)
        } else {
            self.image = Some(String::from_str(filename));
            Ok(())
        }
    }

    /// Gives the engine the image at `filename` and reads what the engine
    /// made of it, in whatever format it was asked for.
    fn read_image(&mut self, filename: &str, reply: &EngineReply) -> (text: RecognitionOutcome)
        ensures
            outcome_view(text) == answered(old(self)@.ready(), reply@),
            final(self)@ == old(self)@.after_image(filename@, reply@.decoded()),
    {
        match self.set_image(filename, reply.image_decoded()) {
            Ok(()) => reply.text(),
            Err(e) => Err(e),
        }
    }

    /// Recognises the image at `filename` as plain text: `reply` is what came
    /// of giving the engine the image and calling for its plain-text extraction.
    pub fn image_to_string(&mut self, filename: &str, reply: &EngineReply) -> (text:
        RecognitionOutcome)
        ensures
            outcome_view(text) == answered(old(self)@.ready(), reply@),
            final(self)@ == old(self)@.after_image(filename@, reply@.decoded()),
            old(self)@.wf() ==> final(self)@.wf(),
    {
        self.read_image(filename, reply)
    }

    /// Recognises the image at `filename` as hOCR: `reply` is what came of
    /// giving the engine the image and calling for its hOCR extraction.
    pub fn image_to_hocr(&mut self, filename: &str, reply: &EngineReply) -> (text:
        RecognitionOutcome)
        ensures
            outcome_view(text) == answered(old(self)@.ready(), reply@),
            final(self)@ == old(self)@.after_image(filename@, reply@.decoded()),
            old(self)@.wf() ==> final(self)@.wf(),
    {
        self.read_image(filename, reply)
    }

    /// Recognises the image at `filename` as TSV: `reply` is what came of
    /// giving the engine the image and calling for its TSV extraction.
    pub fn image_to_tsv(&mut self, filename: &str, reply: &EngineReply) -> (text:
        RecognitionOutcome)
        ensures
            outcome_view(text) == answered(old(self)@.ready(), reply@),
            final(self)@ == old(self)@.after_image(filename@, reply@.decoded()),
            old(self)@.wf() ==> final(self)@.wf(),
    {
        self.read_image(filename, reply)
    }

    /// Recognises the image at `filename` in format `output`: `reply` is what
    /// came of giving the engine the image and making the extraction call of
    /// the format. A format without an extraction call is refused and leaves
    /// the handle as it is.
    pub fn recognize(&mut self, output: OutputFileFormat, filename: &str, reply: &EngineReply) -> (text:
        RecognitionOutcome)
        ensures
            outcome_view(text) == recognized(old(self)@.ready(), output, reply@),
            final(self)@ == old(self)@.after_reply(output, filename@, reply@),
            old(self)@.wf() ==> final(self)@.wf(),
    {
        match output {
            OutputFileFormat::TXT => self.image_to_string(filename, reply),
            OutputFileFormat::TSV => self.image_to_tsv(filename, reply),
            OutputFileFormat::HOCR => self.image_to_hocr(filename, reply),
            _ => Err(TesseractError::UnsupportedFormat),
        }
    }

    /// Recognises a batch of images in format `output`. Each image comes as
    /// its location and the engine's answer for it.
    ///
    /// There is one outcome for each image, at the position of the image. A
    /// failure stays with its image: the images before and after it are
    /// recognised all the same.
    pub fn iter_through_img(
        &mut self,
        output: OutputFileFormat,
        image_array: Vec<(&str, EngineReply)>,
    ) -> (doc: Vec<RecognitionOutcome>)
        ensures
            outcomes_view(doc@) == batch_outcomes(
                old(self)@.ready(),
                output,
                batch_view(image_array@),
            ),
            final(self)@ == old(self)@.after_batch(output, batch_view(image_array@)),
            old(self)@.wf() ==> final(self)@.wf(),
    {
        let ready = self.is_ready();
        let ghost batch = batch_view(image_array@);
        let mut rec_vec = new_queue();
        let mut i: usize = 0;
        while i < image_array.len()
            invariant
                i <= image_array@.len(),
                batch == batch_view(image_array@),
                ready == old(self)@.ready(),
                self@.ready() == ready,
                old(self)@.wf() ==> self@.wf(),
                queued(rec_vec) == batch_outcomes(ready, output, batch.take(i as int)),
                self@ == old(self)@.after_batch(output, batch.take(i as int)),
            decreases image_array@.len() - i,
        {
            let text = self.recognize(output, image_array[i].0, &image_array[i].1);
            push_back(&mut rec_vec, text);
            proof {
                assert(batch.take(i + 1).drop_last() =~= batch.take(i as int));
            }
            i += 1;
        }
        proof {
            assert(batch.take(image_array@.len() as int) =~= batch);
        }
        match collect_now(rec_vec) {
            Some(doc) => doc,
            // The queue did not finish at its first poll. The outcomes are
            // settled by the engine's answers alone, so they are read off those.
            None => outcomes_of(ready, output, &image_array),
        }
    }

    /// Prepares the document that keeps `doc_vec`: the texts with a newline
    /// between neighbours, in the file `file_name` (`data.txt` without one) of
    /// the directory `path` (`working_dir` without one). `directory_exists`
    /// says whether that directory exists; without it there is no document.
    /// The handle plays no part and stays as it is.
    pub fn save_doc(
        &mut self,
        path: Option<&str>,
        file_name: Option<&str>,
        doc_vec: &Vec<String>,
        working_dir: &str,
        directory_exists: bool,
    ) -> (saved: Result<PersistedDocument, TesseractError>)
        ensures
            saved_view(saved) == persisted(
                str_of(path),
                str_of(file_name),
                texts_view(doc_vec@),
                working_dir@,
                directory_exists,
            ),
            *final(self) == *old(self),
    {
        if !directory_exists {
            return Err(TesseractError::DestinationNotFound);
        }
        Ok(
            PersistedDocument {
                directory: String::from_str(destination(path, working_dir)),
                file_name: String::from_str(document_name(file_name)),
                content: join_lines(doc_vec),
            },
        )
    }

    /// Recognises a batch of images in the format named by `output_type`
    /// (`txt`, `tsv` or `hocr`), keeps the texts of the images that were read
    /// and, if `save_doc` asks for it, prepares the document that holds them.
    /// Each image comes as its location and the engine's answer for it;
    /// `working_dir` and `directory_exists` are as for [`Self::save_doc`].
    ///
    /// A format that the engine cannot extract and an engine that is not
    /// ready end the call before any image is looked at, in this order. An
    /// image that fails is left out of the texts and fails nothing else. A
    /// missing directory costs the document, not the texts.
    pub fn recognize_doc(
        &mut self,
        save_path: Option<&str>,
        doc_name: Option<&str>,
        image_array: Vec<(&str, EngineReply)>,
        output_type: &str,
        save_doc: Option<bool>,
        working_dir: &str,
        directory_exists: bool,
    ) -> (recognized_doc: Result<RecognizedDoc, TesseractError>)
        ensures
            recognized_doc is Ok <==> requested_format(output_type@) is Some && old(self)@.ready(),
            recognized_doc matches Err(e) ==> final(self)@ == old(self)@ && e == if requested_format(
                output_type@,
            ) is None {
                TesseractError::UnsupportedFormat
            } else {
                TesseractError::TesseractInitError
            },
            recognized_doc matches Ok(done) ==> {
                let output = requested_format(output_type@).unwrap();
                let texts = successes(batch_outcomes(true, output, batch_view(image_array@)));
                &&& final(self)@ == old(self)@.after_batch(output, batch_view(image_array@))
                &&& done@.texts == texts
                &&& done@.saved == if save_doc == Some(true) {
                    Some(
                        persisted(
                            str_of(save_path),
                            str_of(doc_name),
                            texts,
                            working_dir@,
                            directory_exists,
                        ),
                    )
                } else {
                    None
                }
            },
            old(self)@.wf() ==> final(self)@.wf(),
    {
        let output = match OutputFileFormat::from_type(output_type) {
            Some(format) => {
                if !format.is_extractable() {
                    return Err(TesseractError::UnsupportedFormat);
                }
                format
            },
            None => {
                return Err(TesseractError::UnsupportedFormat);
            },
        };
        if !self.is_ready() {
            return Err(TesseractError::TesseractInitError);
        }
        let doc = self.iter_through_img(output, image_array);
        let texts = successful_texts(doc);
        let wanted = match save_doc {
            Some(wanted) => wanted,
            None => false,
        };
        let saved = if wanted {
            Some(self.save_doc(save_path, doc_name, &texts, working_dir, directory_exists))
        } else {
            None
        };
        Ok(RecognizedDoc { texts, saved })
    }
}

} // verus!
