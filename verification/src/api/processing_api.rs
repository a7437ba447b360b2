//! The ingestion of one upload, as a sequence of decisions.
//!
//! [`Ingest::begin`] looks at the upload and says what to do first;
//! [`Ingest::advance`] takes the answer to the last directive and says what
//! to do next, until the outcome is known. Whoever drives the pipeline writes
//! and reads the blobs, decodes the upload and inserts the records; the
//! pipeline itself touches neither store and runs no decoder.

use crate::datetime::DateTime;
use crate::error::ErrorKind;
use crate::error::IngestError;
use crate::models::image_model::Image;
use crate::models::image_model::ImageView;
use crate::models::processing_model::Processing;
use crate::models::processing_model::ProcessingView;
use crate::oid::hex_id_bytes;
use crate::oid::hex_text;
use crate::oid::is_hex_id;
use crate::oid::ObjectId;
use crate::transform::derive_image;
use crate::transform::derived_image;
use crate::transform::Raster;
use crate::transform::RasterView;
use vstd::prelude::*;

verus! {

/// One file of an upload.
#[derive(Debug, PartialEq, Eq)]
pub struct UploadedFile {
    pub file_name: Option<String>,
    pub content: Vec<u8>,
}

/// One file of an upload as a mathematical value.
pub struct UploadedFileView {
    pub file_name: Option<Seq<char>>,
    pub content: Seq<u8>,
}

impl View for UploadedFile {
    type V = UploadedFileView;

    open spec fn view(&self) -> UploadedFileView {
        UploadedFileView {
            file_name: match self.file_name {
                Some(name) => Some(name@),
                None => None,
            },
            content: self.content@,
        }
    }
}

/// An upload: the files that were sent and the identifier of the user who
/// sent them, as text.
#[derive(Debug, PartialEq, Eq)]
pub struct UploadForm {
    pub files: Vec<UploadedFile>,
    pub user_id: String,
}

/// An upload as a mathematical value.
pub struct UploadFormView {
    pub files: Seq<UploadedFileView>,
    pub user_id: Seq<char>,
}

impl View for UploadForm {
    type V = UploadFormView;

    open spec fn view(&self) -> UploadFormView {
        UploadFormView {
            files: self.files@.map_values(|file: UploadedFile| file@),
            user_id: self.user_id@,
        }
    }
}

/// The identifiers of the three records of a finished ingestion.
#[derive(Clone, Copy, Debug, PartialEq, Eq)]
pub struct IngestReceipt {
    pub base_image: ObjectId,
    pub processed_image: ObjectId,
    pub processing: ObjectId,
}

/// A receipt as a mathematical value.
pub struct ReceiptView {
    pub base_image: Seq<u8>,
    pub processed_image: Seq<u8>,
    pub processing: Seq<u8>,
}

impl View for IngestReceipt {
    type V = ReceiptView;

    open spec fn view(&self) -> ReceiptView {
        ReceiptView {
            base_image: self.base_image@,
            processed_image: self.processed_image@,
            processing: self.processing@,
        }
    }
}

/// What the pipeline asks its driver to do.
#[derive(Debug, PartialEq, Eq)]
#[allow(inconsistent_fields)]
pub enum Directive {
    /// Write `content` to the blob store at `path`, replacing what is there.
    WriteBlob { path: String, content: Vec<u8> },
    /// Read the blob at `path`.
    ReadBlob { path: String },
    /// Decode the bytes of an image file into eight-bit RGBA samples, row by
    /// row, in whatever format their first bytes announce.
    Decode { content: Vec<u8> },
    /// Insert an image record; the store assigns its identifier.
    InsertImage { doc: Image },
    /// Insert a processing record; the store assigns its identifier.
    InsertProcessing { doc: Processing },
}

/// A directive as a mathematical value.
#[allow(inconsistent_fields)]
pub enum DirectiveView {
    WriteBlob { path: Seq<char>, content: Seq<u8> },
    ReadBlob { path: Seq<char> },
    Decode { content: Seq<u8> },
    InsertImage { doc: ImageView },
    InsertProcessing { doc: ProcessingView },
}

impl View for Directive {
    type V = DirectiveView;

    open spec fn view(&self) -> DirectiveView {
        match self {
            Directive::WriteBlob { path, content } => DirectiveView::WriteBlob {
                path: path@,
                content: content@,
            },
            Directive::ReadBlob { path } => DirectiveView::ReadBlob { path: path@ },
            Directive::Decode { content } => DirectiveView::Decode { content: content@ },
            Directive::InsertImage { doc } => DirectiveView::InsertImage { doc: doc@ },
            Directive::InsertProcessing { doc } => DirectiveView::InsertProcessing { doc: doc@ },
        }
    }
}

/// What the driver reports back after a directive.
#[derive(Debug, PartialEq, Eq)]
pub enum Response {
    /// The blob was written.
    BlobWritten,
    /// The blob was read; these are its bytes.
    BlobRead { content: Vec<u8> },
    /// The bytes were decoded; these are the dimensions and the samples.
    Decoded { width: u32, height: u32, pixels: Vec<u8> },
    /// The bytes are no image that the decoder reads.
    Undecodable { description: String },
    /// The record was inserted under this identifier.
    Inserted { id: ObjectId },
    /// The directive could not be carried out.
    Failed { description: String },
}

/// A response as a mathematical value.
pub enum ResponseView {
    BlobWritten,
    BlobRead { content: Seq<u8> },
    Decoded { image: RasterView },
    Undecodable { description: Seq<char> },
    Inserted { id: Seq<u8> },
    Failed { description: Seq<char> },
}

impl View for Response {
    type V = ResponseView;

    open spec fn view(&self) -> ResponseView {
        match self {
            Response::BlobWritten => ResponseView::BlobWritten,
            Response::BlobRead { content } => ResponseView::BlobRead { content: content@ },
            Response::Decoded { width, height, pixels } => ResponseView::Decoded {
                image: RasterView {
                    width: *width as nat,
                    height: *height as nat,
                    pixels: pixels@,
                },
            },
            Response::Undecodable { description } => ResponseView::Undecodable {
                description: description@,
            },
            Response::Inserted { id } => ResponseView::Inserted { id: id@ },
            Response::Failed { description } => ResponseView::Failed {
                description: description@,
            },
        }
    }
}

/// Where an ingestion stands: the directive it waits on, and what it has to
/// remember for the directives that follow.
#[derive(Debug, PartialEq, Eq)]
pub enum Ingest {
    /// The base image is being written to `path`.
    WritingBase { filename: String, path: String, user_id: String },
    /// The record of the base image is being inserted.
    RecordingBase { filename: String, path: String, user: ObjectId },
    /// The base image is being read back from `path`.
    ReadingBase { filename: String, path: String, user: ObjectId, base_image: ObjectId },
    /// What was read back is being decoded.
    Decoding { filename: String, path: String, user: ObjectId, base_image: ObjectId },
    /// The derived image is being written to `path`, under the name `filename`.
    WritingDerived { filename: String, path: String, user: ObjectId, base_image: ObjectId },
    /// The record of the derived image is being inserted.
    RecordingDerived { user: ObjectId, base_image: ObjectId },
    /// The processing record is being inserted.
    Linking { base_image: ObjectId, processed_image: ObjectId },
}

/// The state of an ingestion as a mathematical value.
pub enum IngestView {
    WritingBase { filename: Seq<char>, path: Seq<char>, user_id: Seq<char> },
    RecordingBase { filename: Seq<char>, path: Seq<char>, user: Seq<u8> },
    ReadingBase { filename: Seq<char>, path: Seq<char>, user: Seq<u8>, base_image: Seq<u8> },
    Decoding { filename: Seq<char>, path: Seq<char>, user: Seq<u8>, base_image: Seq<u8> },
    WritingDerived { filename: Seq<char>, path: Seq<char>, user: Seq<u8>, base_image: Seq<u8> },
    RecordingDerived { user: Seq<u8>, base_image: Seq<u8> },
    Linking { base_image: Seq<u8>, processed_image: Seq<u8> },
}

impl View for Ingest {
    type V = IngestView;

    open spec fn view(&self) -> IngestView {
        match self {
            Ingest::WritingBase { filename, path, user_id } => IngestView::WritingBase {
                filename: filename@,
                path: path@,
                user_id: user_id@,
            },
            Ingest::RecordingBase { filename, path, user } => IngestView::RecordingBase {
                filename: filename@,
                path: path@,
                user: user@,
            },
            Ingest::ReadingBase { filename, path, user, base_image } => IngestView::ReadingBase {
                filename: filename@,
                path: path@,
                user: user@,
                base_image: base_image@,
            },
            Ingest::Decoding { filename, path, user, base_image } => IngestView::Decoding {
                filename: filename@,
                path: path@,
                user: user@,
                base_image: base_image@,
            },
            Ingest::WritingDerived {
                filename,
                path,
                user,
                base_image,
            } => IngestView::WritingDerived {
                filename: filename@,
                path: path@,
                user: user@,
                base_image: base_image@,
            },
            Ingest::RecordingDerived { user, base_image } => IngestView::RecordingDerived {
                user: user@,
                base_image: base_image@,
            },
            Ingest::Linking { base_image, processed_image } => IngestView::Linking {
                base_image: base_image@,
                processed_image: processed_image@,
            },
        }
    }
}

/// A decision of the pipeline: go on with a directive, or stop with the
/// outcome.
#[derive(Debug, PartialEq, Eq)]
pub enum Step {
    Next { state: Ingest, directive: Directive },
    Done { outcome: Result<IngestReceipt, IngestError> },
}

/// A decision as a mathematical value. Of an error it keeps the kind.
pub enum StepView {
    Next { state: IngestView, directive: DirectiveView },
    Done { outcome: Result<ReceiptView, ErrorKind> },
}

impl View for Step {
    type V = StepView;

    open spec fn view(&self) -> StepView {
        match self {
            Step::Next { state, directive } => StepView::Next {
                state: state@,
                directive: directive@,
            },
            Step::Done { outcome } => StepView::Done {
                outcome: match outcome {
                    Ok(receipt) => Ok(receipt@),
                    Err(e) => Err(e@),
                },
            },
        }
    }
}

/// The name under which a file without a name is stored.
pub open spec fn default_file_name() -> Seq<char> {
    "default_file_name"@
}

/// What is appended to the name and to the path of an upload for the image
/// derived from it, whatever the format of the upload.
pub open spec fn processed_suffix() -> Seq<char> {
    "_processed.jpg"@
}

/// The description of an upload that does not hold exactly one file.
pub open spec fn one_file_text() -> Seq<char> {
    "Exactly one file must be sent"@
}

/// The description of an upload whose user identifier is not one.
pub open spec fn bad_user_text() -> Seq<char> {
    "User id should be parsed correctly"@
}

/// The description of a decoded image whose samples are not four to the
/// pixel, or whose rows are longer than the machine can count.
pub open spec fn bad_raster_text() -> Seq<char> {
    "The decoded image is misshapen"@
}

/// The description of an insert that came back with the identifier of the
/// base image for the derived image.
pub open spec fn same_id_text() -> Seq<char> {
    "The store gave the derived image the identifier of the base image"@
}

/// The description of a response that does not answer the directive.
pub open spec fn out_of_turn_text() -> Seq<char> {
    "The response does not answer the directive"@
}

/// The name under which a file is stored.
pub open spec fn stored_name(file: UploadedFileView) -> Seq<char> {
    match file.file_name {
        Some(name) => name,
        None => default_file_name(),
    }
}

/// The path of a blob: the root directory, a slash unless the root ends in
/// one already, the name.
pub open spec fn blob_path(root: Seq<char>, name: Seq<char>) -> Seq<char> {
    if root.len() > 0 && root.last() == '/' {
        root + name
    } else {
        root + "/"@ + name
    }
}

/// The first decision on an upload.
pub open spec fn first_step(root: Seq<char>, form: UploadFormView) -> StepView {
    if form.files.len() != 1 {
        StepView::Done { outcome: Err(ErrorKind::InvalidInput) }
    } else {
        let name = stored_name(form.files[0]);
        let path = blob_path(root, name);
        StepView::Next {
            state: IngestView::WritingBase { filename: name, path, user_id: form.user_id },
            directive: DirectiveView::WriteBlob { path, content: form.files[0].content },
        }
    }
}

/// The kind of error with which a stage fails when its directive does.
pub open spec fn failure_kind(state: IngestView) -> ErrorKind {
    match state {
        IngestView::WritingBase { .. } => ErrorKind::StorageError,
        IngestView::RecordingBase { .. } => ErrorKind::PersistenceError,
        IngestView::ReadingBase { .. } => ErrorKind::StorageError,
        IngestView::Decoding { .. } => ErrorKind::DecodeError,
        IngestView::WritingDerived { .. } => ErrorKind::StorageError,
        IngestView::RecordingDerived { .. } => ErrorKind::PersistenceError,
        IngestView::Linking { .. } => ErrorKind::PersistenceError,
    }
}

/// The decision that follows `response` in `state`, when records made at
/// this point are stamped with `now`.
pub open spec fn next_step(state: IngestView, response: ResponseView, now: DateTime) -> StepView {
    match (state, response) {
        (IngestView::WritingBase { filename, path, user_id }, ResponseView::BlobWritten) => {
            if is_hex_id(user_id) {
                let user = hex_id_bytes(user_id);
                StepView::Next {
                    state: IngestView::RecordingBase { filename, path, user },
                    directive: DirectiveView::InsertImage {
                        doc: ImageView { id: None, filename, uri: path, timestamp: now, user },
                    },
                }
            } else {
                StepView::Done { outcome: Err(ErrorKind::InvalidInput) }
            }
        },
        (IngestView::RecordingBase { filename, path, user }, ResponseView::Inserted { id }) => {
            StepView::Next {
                state: IngestView::ReadingBase { filename, path, user, base_image: id },
                directive: DirectiveView::ReadBlob { path },
            }
        },
        (
            IngestView::ReadingBase { filename, path, user, base_image },
            ResponseView::BlobRead { content },
        ) => {
            StepView::Next {
                state: IngestView::Decoding { filename, path, user, base_image },
                directive: DirectiveView::Decode { content },
            }
        },
        (IngestView::Decoding { .. }, ResponseView::Undecodable { .. }) => {
            StepView::Done { outcome: Err(ErrorKind::DecodeError) }
        },
        (
            IngestView::Decoding { filename, path, user, base_image },
            ResponseView::Decoded { image },
        ) => {
            if !image.wf() {
                StepView::Done { outcome: Err(ErrorKind::DecodeError) }
            } else {
                match derived_image(image) {
                    Ok(bytes) => StepView::Next {
                        state: IngestView::WritingDerived {
                            filename: filename + processed_suffix(),
                            path: path + processed_suffix(),
                            user,
                            base_image,
                        },
                        directive: DirectiveView::WriteBlob {
                            path: path + processed_suffix(),
                            content: bytes,
                        },
                    },
                    Err(_) => StepView::Done { outcome: Err(ErrorKind::StorageError) },
                }
            }
        },
        (
            IngestView::WritingDerived { filename, path, user, base_image },
            ResponseView::BlobWritten,
        ) => {
            StepView::Next {
                state: IngestView::RecordingDerived { user, base_image },
                directive: DirectiveView::InsertImage {
                    doc: ImageView { id: None, filename, uri: path, timestamp: now, user },
                },
            }
        },
        (IngestView::RecordingDerived { user, base_image }, ResponseView::Inserted { id }) => {
            if id == base_image {
                StepView::Done { outcome: Err(ErrorKind::PersistenceError) }
            } else {
                StepView::Next {
                    state: IngestView::Linking { base_image, processed_image: id },
                    directive: DirectiveView::InsertProcessing {
                        doc: ProcessingView {
                            id: None,
                            timestamp: now,
                            base_image,
                            processed_image: id,
                            user,
                        },
                    },
                }
            }
        },
        (IngestView::Linking { base_image, processed_image }, ResponseView::Inserted { id }) => {
            StepView::Done {
                outcome: Ok(ReceiptView { base_image, processed_image, processing: id }),
            }
        },
        _ => StepView::Done { outcome: Err(failure_kind(state)) },
    }
}

/// The description of the error in which `response` ends the ingestion in
/// `state`: the driver's words, the encoder's, or the pipeline's own; `None`
/// where nothing fails.
pub open spec fn failure_text(state: IngestView, response: ResponseView) -> Option<Seq<char>> {
    match (state, response) {
        (_, ResponseView::Failed { description }) => Some(description),
        (IngestView::WritingBase { user_id, .. }, ResponseView::BlobWritten) => {
            if is_hex_id(user_id) {
                None
            } else {
                Some(bad_user_text())
            }
        },
        (IngestView::RecordingBase { .. }, ResponseView::Inserted { .. }) => None,
        (IngestView::ReadingBase { .. }, ResponseView::BlobRead { .. }) => None,
        (IngestView::Decoding { .. }, ResponseView::Undecodable { description }) => Some(
            description,
        ),
        (IngestView::Decoding { .. }, ResponseView::Decoded { image }) => {
            if !image.wf() {
                Some(bad_raster_text())
            } else {
                match derived_image(image) {
                    Ok(_) => None,
                    Err(refusal) => Some(refusal),
                }
            }
        },
        (IngestView::WritingDerived { .. }, ResponseView::BlobWritten) => None,
        (IngestView::RecordingDerived { base_image, .. }, ResponseView::Inserted { id }) => {
            if id == base_image {
                Some(same_id_text())
            } else {
                None
            }
        },
        (IngestView::Linking { .. }, ResponseView::Inserted { .. }) => None,
        _ => Some(out_of_turn_text()),
    }
}

/// No failure goes unworded: wherever a response ends the ingestion in an
/// error, the description of that error is fixed, by the driver, by the
/// encoder or by the pipeline.
pub proof fn every_failure_is_worded(state: IngestView, response: ResponseView, now: DateTime)
    requires
        next_step(state, response, now) matches StepView::Done { outcome: Err(_) },
    ensures
        failure_text(state, response) is Some,
{
}

/// The end of an ingestion whose directive was not carried out: an error of
/// the stage's kind, worded by the driver where it reported a failure.
fn broken_off(kind: ErrorKind, response: Response) -> (step: Step)
    ensures
        step@ == (StepView::Done { outcome: Err(kind) }),
        step matches Step::Done { outcome: Err(e) } && e.text() == (match response@ {
            ResponseView::Failed { description } => description,
            _ => out_of_turn_text(),
        }),
{
    let description = match response {
        Response::Failed { description } => description,
        _ => String::from_str("The response does not answer the directive"),
    };
    Step::Done { outcome: Err(IngestError::of(kind, description)) }
}

impl Ingest {
    /// Why an upload of so many files is refused, if it is: an upload holds
    /// exactly one file. A driver that has to fetch the files can ask this
    /// before it does.
    pub fn refusal(file_count: usize) -> (refused: Option<IngestError>)
        ensures
            refused is None <==> file_count == 1,
            refused matches Some(e) ==> e@ == ErrorKind::InvalidInput && e.text()
                == one_file_text(),
    {
        if file_count == 1 {
            None
        } else {
            Some(IngestError::InvalidInput(String::from_str("Exactly one file must be sent")))
        }
    }

    /// Looks at an upload and decides how its ingestion begins. Blobs will be
    /// kept under the directory `root`.
    ///
    /// An upload of no file, or of more than one, ends at once, before
    /// anything has been asked of the driver.
    pub fn begin(root: &str, form: UploadForm) -> (step: Step)
        ensures
            step@ == first_step(root@, form@),
            form.files@.len() == 1 ==> step is Next,
            form.files@.len() != 1 ==> step@ == (StepView::Done {
                outcome: Err(ErrorKind::InvalidInput),
            }),
            step matches Step::Done { outcome: Err(e) } ==> e.text() == one_file_text(),
    {
        let UploadForm { files, user_id } = form;
        let mut files = files;
        if let Some(refused) = Ingest::refusal(files.len()) {
            return Step::Done { outcome: Err(refused) };
        }
        let file = files.pop().unwrap();
        let UploadedFile { file_name, content } = file;
        let filename = match file_name {
            Some(name) => name,
            None => String::from_str("default_file_name"),
        };
        let length: usize = root.unicode_len();
        let directory = if length > 0 && root.get_char(length - 1) == '/' {
            String::from_str(root)
        } else {
            String::from_str(root).concat("/")
        };
        let path = directory.concat(filename.as_str());
        let target = path.clone();
        Step::Next {
            state: Ingest::WritingBase { filename, path, user_id },
            directive: Directive::WriteBlob { path: target, content },
        }
    }

    /// Decides what follows the decoding of the base image, given the image
    /// derived from it, or the reason why none could be.
    pub fn with_derived(
        filename: String,
        path: String,
        user: ObjectId,
        base_image: ObjectId,
        derived: Result<Vec<u8>, IngestError>,
    ) -> (step: Step)
        ensures
            match derived {
                Ok(bytes) => step@ == (StepView::Next {
                    state: IngestView::WritingDerived {
                        filename: filename@ + processed_suffix(),
                        path: path@ + processed_suffix(),
                        user: user@,
                        base_image: base_image@,
                    },
                    directive: DirectiveView::WriteBlob {
                        path: path@ + processed_suffix(),
                        content: bytes@,
                    },
                }),
                Err(e) => step == (Step::Done { outcome: Err(e) }),
            },
    {
        match derived {
            Ok(bytes) => {
                let derived_name = filename.concat("_processed.jpg");
                let derived_path = path.concat("_processed.jpg");
                let target = derived_path.clone();
                Step::Next {
                    state: Ingest::WritingDerived {
                        filename: derived_name,
                        path: derived_path,
                        user,
                        base_image,
                    },
                    directive: Directive::WriteBlob { path: target, content: bytes },
                }
            },
            Err(e) => Step::Done { outcome: Err(e) },
        }
    }

    /// Takes the answer to the last directive and decides what follows.
    /// Records made at this point are stamped with `now`.
    ///
    /// Each directive is given once: an answer of failure ends the ingestion
    /// with an error of the stage's kind and the driver's wording, and what
    /// was written or inserted before stays as it is.
    pub fn advance_at(self, response: Response, now: DateTime) -> (step: Step)
        ensures
            step@ == next_step(self@, response@, now),
            match (step, failure_text(self@, response@)) {
                (Step::Done { outcome: Err(e) }, Some(text)) => e.text() == text,
                _ => true,
            },
    {
        match self {
            Ingest::WritingBase { filename, path, user_id } => match response {
                Response::BlobWritten => match ObjectId::parse_str(user_id.as_str()) {
                    Some(user) => {
                        let doc = Image::new(filename.clone(), path.clone(), now, user);
                        Step::Next {
                            state: Ingest::RecordingBase { filename, path, user },
                            directive: Directive::InsertImage { doc },
                        }
                    },
                    None => Step::Done {
                        outcome: Err(
                            IngestError::InvalidInput(
                                String::from_str("User id should be parsed correctly"),
                            ),
                        ),
                    },
                },
                other => broken_off(ErrorKind::StorageError, other),
            },
            Ingest::RecordingBase { filename, path, user } => match response {
                Response::Inserted { id } => {
                    let target = path.clone();
                    Step::Next {
                        state: Ingest::ReadingBase { filename, path, user, base_image: id },
                        directive: Directive::ReadBlob { path: target },
                    }
                },
                other => broken_off(ErrorKind::PersistenceError, other),
            },
            Ingest::ReadingBase { filename, path, user, base_image } => match response {
                Response::BlobRead { content } => Step::Next {
                    state: Ingest::Decoding { filename, path, user, base_image },
                    directive: Directive::Decode { content },
                },
                other => broken_off(ErrorKind::StorageError, other),
            },
            Ingest::Decoding { filename, path, user, base_image } => match response {
                Response::Decoded { width, height, pixels } => match Raster::new(
                    width,
                    height,
                    pixels,
                ) {
                    Some(image) => {
                        let derived = derive_image(&image);
                        Ingest::with_derived(filename, path, user, base_image, derived)
                    },
                    None => {
                        let misshapen = String::from_str("The decoded image is misshapen");
                        Step::Done { outcome: Err(IngestError::DecodeError(misshapen)) }
                    },
                },
                Response::Undecodable { description } => Step::Done {
                    outcome: Err(IngestError::DecodeError(description)),
                },
                other => broken_off(ErrorKind::DecodeError, other),
            },
            Ingest::WritingDerived { filename, path, user, base_image } => match response {
                Response::BlobWritten => {
                    let doc = Image::new(filename, path, now, user);
                    Step::Next {
                        state: Ingest::RecordingDerived { user, base_image },
                        directive: Directive::InsertImage { doc },
                    }
                },
                other => broken_off(ErrorKind::StorageError, other),
            },
            Ingest::RecordingDerived { user, base_image } => match response {
                Response::Inserted { id } => {
                    if id.same(&base_image) {
                        let repeated = String::from_str(
                            "The store gave the derived image the identifier of the base image",
                        );
                        Step::Done { outcome: Err(IngestError::PersistenceError(repeated)) }
                    } else {
                        let doc = Processing::new(now, base_image, id, user);
                        Step::Next {
                            state: Ingest::Linking { base_image, processed_image: id },
                            directive: Directive::InsertProcessing { doc },
                        }
                    }
                },
                other => broken_off(ErrorKind::PersistenceError, other),
            },
            Ingest::Linking { base_image, processed_image } => match response {
                Response::Inserted { id } => Step::Done {
                    outcome: Ok(IngestReceipt { base_image, processed_image, processing: id }),
                },
                other => broken_off(ErrorKind::PersistenceError, other),
            },
        }
    }

    /// Takes the answer to the last directive and decides what follows,
    /// stamping records with the time of the call.
    pub fn advance(self, response: Response) -> (step: Step)
        ensures
            exists|now: DateTime| step@ == #[trigger] next_step(self@, response@, now),
            match (step, failure_text(self@, response@)) {
                (Step::Done { outcome: Err(e) }, Some(text)) => e.text() == text,
                _ => true,
            },
    {
        let now = DateTime::now();
        self.advance_at(response, now)
    }
}

/// What the upload endpoint answers: a status code and a body of text.
#[derive(Debug, PartialEq, Eq)]
pub struct HttpReply {
    pub status: u16,
    pub body: String,
}

/// An identifier as the success message shows it.
pub open spec fn shown_id(id: Seq<u8>) -> Seq<char> {
    "ObjectId(\""@ + hex_text(id) + "\")"@
}

/// The body of the answer to a successful upload: the identifiers of the
/// record of the base image and of the record of the derived image.
pub open spec fn success_body(receipt: ReceiptView) -> Seq<char> {
    "Image correctly saved with IDs "@ + shown_id(receipt.base_image) + " and "@ + shown_id(
        receipt.processed_image,
    )
}

/// The status code for an outcome: 200 for success, 400 where the request
/// was at fault, 500 for every other failure.
pub open spec fn status_of(outcome: Result<ReceiptView, ErrorKind>) -> u16 {
    match outcome {
        Ok(_) => 200,
        Err(ErrorKind::InvalidInput) => 400,
        Err(_) => 500,
    }
}

fn show_id(id: &ObjectId) -> (text: String)
    ensures
        text@ == shown_id(id@),
{
    String::from_str("ObjectId(\"").concat(id.to_hex().as_str()).concat("\")")
}

/// Words the outcome of an ingestion for the requester.
pub fn reply_to(outcome: &Result<IngestReceipt, IngestError>) -> (reply: HttpReply)
    ensures
        match outcome {
            Ok(receipt) => reply.status == 200 && reply.body@ == success_body(receipt@),
            Err(e) => reply.status == status_of(Err(e@)) && reply.body@ == e.text(),
        },
{
    match outcome {
        Ok(receipt) => {
            let body = String::from_str("Image correctly saved with IDs ").concat(
                show_id(&receipt.base_image).as_str(),
            ).concat(" and ").concat(show_id(&receipt.processed_image).as_str());
            HttpReply { status: 200, body }
        },
        Err(e) => {
            let status: u16 = if e.is_client_error() {
                400
            } else {
                500
            };
            HttpReply { status, body: e.description() }
        },
    }
}

} // verus!
