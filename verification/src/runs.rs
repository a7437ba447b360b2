//! Whole ingestions: the decisions of the pipeline together with the stores
//! that carry them out, from the upload to the outcome, and what holds of
//! every such course of events.

use crate::api::processing_api::blob_path;
use crate::api::processing_api::first_step;
use crate::api::processing_api::next_step;
use crate::api::processing_api::processed_suffix;
use crate::api::processing_api::stored_name;
use crate::api::processing_api::DirectiveView;
use crate::api::processing_api::IngestView;
use crate::api::processing_api::ReceiptView;
use crate::api::processing_api::ResponseView;
use crate::api::processing_api::StepView;
use crate::api::processing_api::UploadFormView;
use crate::datetime::DateTime;
use crate::error::ErrorKind;
use crate::models::image_model::ImageView;
use crate::models::processing_model::ProcessingView;
use crate::oid::hex_id_bytes;
use crate::oid::is_hex_id;
use crate::stores::answered;
use crate::stores::consistent;
use crate::stores::disturbed;
use crate::stores::grown;
use crate::stores::linked;
use crate::stores::Decoder;
use crate::stores::Stores;
use crate::transform::derived_image;
use vstd::prelude::*;

verus! {

/// Where an ingestion runs: the directory under which blobs are kept, and
/// what the decoder in use makes of the bytes of a file.
pub struct Site {
    pub root: Seq<char>,
    pub decoder: Decoder,
}

/// One point in the course of an ingestion: what the stores held when the
/// last directive reached them, the response that they gave and the time at
/// which the pipeline took it, the decision that the pipeline made, and what
/// the stores hold by then. Of the first point only the decision and the
/// stores count.
pub struct Moment {
    pub seen: Stores,
    pub response: ResponseView,
    pub now: DateTime,
    pub step: StepView,
    pub stores: Stores,
}

/// `later` is what comes of `earlier`: other ingestions may have been at
/// work since, then the stores or the decoder answer the directive of
/// `earlier`, and the pipeline decides on the response.
pub open spec fn follows(site: Site, earlier: Moment, later: Moment) -> bool {
    &&& earlier.step matches StepView::Next { state, directive }
    &&& disturbed(earlier.stores, later.seen)
    &&& answered(site.decoder, later.seen, directive, later.response, later.stores)
    &&& later.step == next_step(state, later.response, later.now)
}

/// `run` is a course of the ingestion of `form` at `site` that begins
/// with the stores holding `start`: every directive of the pipeline is
/// answered by the stores, which other ingestions may use meanwhile.
pub open spec fn is_run(
    site: Site,
    form: UploadFormView,
    start: Stores,
    run: Seq<Moment>,
) -> bool {
    &&& run.len() > 0
    &&& run[0].step == first_step(site.root, form)
    &&& run[0].stores == start
    &&& forall|i: int| 0 <= i < run.len() - 1 ==> follows(site, #[trigger] run[i], run[i + 1])
}

/// Nothing but the run itself wrote to the stores while it went on.
pub open spec fn undisturbed(run: Seq<Moment>) -> bool {
    forall|i: int| 1 <= i < run.len() ==> (#[trigger] run[i]).seen == run[i - 1].stores
}

/// No directive of the run failed.
pub open spec fn unfailing(run: Seq<Moment>) -> bool {
    forall|i: int| 1 <= i < run.len() ==> !((#[trigger] run[i]).response is Failed)
}

/// The bytes of the one file of an upload.
pub open spec fn upload_content(form: UploadFormView) -> Seq<u8> {
    form.files[0].content
}

/// The path at which the one file of an upload is stored.
pub open spec fn base_path(site: Site, form: UploadFormView) -> Seq<char> {
    blob_path(site.root, stored_name(form.files[0]))
}

/// The path at which the image derived from an upload is stored.
pub open spec fn derived_path(site: Site, form: UploadFormView) -> Seq<char> {
    base_path(site, form) + processed_suffix()
}

/// What is derived from the one file of an upload: the JPEG file of the
/// decoded image turned half way round; a decode error where the decoder
/// makes no image of the bytes, a storage error where the encoder refuses
/// the image.
pub open spec fn upload_derived(site: Site, form: UploadFormView) -> Result<Seq<u8>, ErrorKind> {
    match (site.decoder)(upload_content(form)) {
        None => Err(ErrorKind::DecodeError),
        Some(image) => if !image.wf() {
            Err(ErrorKind::DecodeError)
        } else {
            match derived_image(image) {
                Ok(bytes) => Ok(bytes),
                Err(_) => Err(ErrorKind::StorageError),
            }
        },
    }
}

/// The user of an upload.
pub open spec fn upload_user(form: UploadFormView) -> Seq<u8> {
    hex_id_bytes(form.user_id)
}

/// The record of the base image, as stored under `id` at the time `at`.
pub open spec fn base_record(
    site: Site,
    form: UploadFormView,
    id: Seq<u8>,
    at: DateTime,
) -> ImageView {
    ImageView {
        id: Some(id),
        filename: stored_name(form.files[0]),
        uri: base_path(site, form),
        timestamp: at,
        user: upload_user(form),
    }
}

/// The record of the derived image, as stored under `id` at the time `at`.
pub open spec fn derived_record(
    site: Site,
    form: UploadFormView,
    id: Seq<u8>,
    at: DateTime,
) -> ImageView {
    ImageView {
        id: Some(id),
        filename: stored_name(form.files[0]) + processed_suffix(),
        uri: derived_path(site, form),
        timestamp: at,
        user: upload_user(form),
    }
}

/// The processing record of a receipt, as stored at the time `at`.
pub open spec fn link_record(
    form: UploadFormView,
    receipt: ReceiptView,
    at: DateTime,
) -> ProcessingView {
    ProcessingView {
        id: Some(receipt.processing),
        timestamp: at,
        base_image: receipt.base_image,
        processed_image: receipt.processed_image,
        user: upload_user(form),
    }
}

/// The stores hold what they held at the start and the base image.
pub open spec fn holds_base(
    site: Site,
    form: UploadFormView,
    start: Stores,
    stores: Stores,
) -> bool {
    stores == (Stores {
        blobs: start.blobs.insert(base_path(site, form), upload_content(form)),
        images: start.images,
        processings: start.processings,
    })
}

/// The stores hold what they held at the start, the base image, and its
/// record under the new identifier `base`.
pub open spec fn holds_recorded_base(
    site: Site,
    form: UploadFormView,
    start: Stores,
    stores: Stores,
    base: Seq<u8>,
) -> bool {
    &&& !start.images.dom().contains(base)
    &&& stores == (Stores {
        blobs: start.blobs.insert(base_path(site, form), upload_content(form)),
        images: start.images.insert(
            base,
            base_record(site, form, base, stores.images[base].timestamp),
        ),
        processings: start.processings,
    })
}

/// The stores hold what they held at the start, the base image with its
/// record under `base`, and the derived image.
pub open spec fn holds_derived(
    site: Site,
    form: UploadFormView,
    start: Stores,
    stores: Stores,
    base: Seq<u8>,
) -> bool {
    &&& !start.images.dom().contains(base)
    &&& upload_derived(site, form) matches Ok(bytes)
    &&& stores == (Stores {
        blobs: start.blobs.insert(base_path(site, form), upload_content(form)).insert(
            derived_path(site, form),
            bytes,
        ),
        images: start.images.insert(
            base,
            base_record(site, form, base, stores.images[base].timestamp),
        ),
        processings: start.processings,
    })
}

/// The stores hold what they held at the start, the base image with its
/// record under `base`, and the derived image with its record under
/// `processed`; the two identifiers are new and differ.
pub open spec fn holds_recorded_derived(
    site: Site,
    form: UploadFormView,
    start: Stores,
    stores: Stores,
    base: Seq<u8>,
    processed: Seq<u8>,
) -> bool {
    &&& !start.images.dom().contains(base)
    &&& !start.images.dom().contains(processed)
    &&& base != processed
    &&& upload_derived(site, form) matches Ok(bytes)
    &&& stores == (Stores {
        blobs: start.blobs.insert(base_path(site, form), upload_content(form)).insert(
            derived_path(site, form),
            bytes,
        ),
        images: start.images.insert(
            base,
            base_record(site, form, base, stores.images[base].timestamp),
        ).insert(
            processed,
            derived_record(site, form, processed, stores.images[processed].timestamp),
        ),
        processings: start.processings,
    })
}

/// The stores hold what they held at the start and all that a finished
/// ingestion adds: two blobs, two image records and the processing record
/// that links them, under the three new identifiers of the receipt.
pub open spec fn holds_all(
    site: Site,
    form: UploadFormView,
    start: Stores,
    stores: Stores,
    receipt: ReceiptView,
) -> bool {
    &&& !start.images.dom().contains(receipt.base_image)
    &&& !start.images.dom().contains(receipt.processed_image)
    &&& !start.processings.dom().contains(receipt.processing)
    &&& receipt.base_image != receipt.processed_image
    &&& upload_derived(site, form) matches Ok(bytes)
    &&& stores == (Stores {
        blobs: start.blobs.insert(base_path(site, form), upload_content(form)).insert(
            derived_path(site, form),
            bytes,
        ),
        images: start.images.insert(
            receipt.base_image,
            base_record(
                site,
                form,
                receipt.base_image,
                stores.images[receipt.base_image].timestamp,
            ),
        ).insert(
            receipt.processed_image,
            derived_record(
                site,
                form,
                receipt.processed_image,
                stores.images[receipt.processed_image].timestamp,
            ),
        ),
        processings: start.processings.insert(
            receipt.processing,
            link_record(form, receipt, stores.processings[receipt.processing].timestamp),
        ),
    })
}

/// What holds where an ingestion has ended in an error of the given kind.
pub open spec fn ended_in(
    site: Site,
    form: UploadFormView,
    start: Stores,
    moment: Moment,
    kind: ErrorKind,
) -> bool {
    if form.files.len() != 1 {
        kind == ErrorKind::InvalidInput && moment.stores == start
    } else if moment.response is Failed {
        &&& kind != ErrorKind::InvalidInput
        &&& kind != ErrorKind::DecodeError
        &&& moment.stores.processings == start.processings
    } else if kind == ErrorKind::InvalidInput {
        !is_hex_id(form.user_id) && holds_base(site, form, start, moment.stores)
    } else {
        &&& is_hex_id(form.user_id)
        &&& upload_derived(site, form) == Err::<Seq<u8>, ErrorKind>(kind)
        &&& exists|base: Seq<u8>| #[trigger]
            holds_recorded_base(site, form, start, moment.stores, base)
    }
}

/// What holds at every point of an undisturbed run: the pipeline remembers
/// the upload rightly, asks for the right thing, and the stores hold exactly
/// what the directives answered so far have put there.
pub open spec fn on_course(
    site: Site,
    form: UploadFormView,
    start: Stores,
    moment: Moment,
) -> bool {
    match moment.step {
        StepView::Next { state, directive } => form.files.len() == 1 && match state {
            IngestView::WritingBase { filename, path, user_id } => {
                &&& filename == stored_name(form.files[0])
                &&& path == base_path(site, form)
                &&& user_id == form.user_id
                &&& directive == (DirectiveView::WriteBlob {
                    path: base_path(site, form),
                    content: upload_content(form),
                })
                &&& moment.stores == start
            },
            IngestView::RecordingBase { filename, path, user } => {
                &&& is_hex_id(form.user_id)
                &&& filename == stored_name(form.files[0])
                &&& path == base_path(site, form)
                &&& user == upload_user(form)
                &&& directive matches DirectiveView::InsertImage { doc }
                &&& doc.id is None
                &&& doc.filename == stored_name(form.files[0])
                &&& doc.uri == base_path(site, form)
                &&& doc.user == upload_user(form)
                &&& holds_base(site, form, start, moment.stores)
            },
            IngestView::ReadingBase { filename, path, user, base_image } => {
                &&& is_hex_id(form.user_id)
                &&& filename == stored_name(form.files[0])
                &&& path == base_path(site, form)
                &&& user == upload_user(form)
                &&& directive == (DirectiveView::ReadBlob { path: base_path(site, form) })
                &&& holds_recorded_base(site, form, start, moment.stores, base_image)
            },
            IngestView::Decoding { filename, path, user, base_image } => {
                &&& is_hex_id(form.user_id)
                &&& filename == stored_name(form.files[0])
                &&& path == base_path(site, form)
                &&& user == upload_user(form)
                &&& directive == (DirectiveView::Decode { content: upload_content(form) })
                &&& holds_recorded_base(site, form, start, moment.stores, base_image)
            },
            IngestView::WritingDerived { filename, path, user, base_image } => {
                &&& is_hex_id(form.user_id)
                &&& filename == stored_name(form.files[0]) + processed_suffix()
                &&& path == derived_path(site, form)
                &&& user == upload_user(form)
                &&& upload_derived(site, form) matches Ok(bytes)
                &&& directive == (DirectiveView::WriteBlob {
                    path: derived_path(site, form),
                    content: bytes,
                })
                &&& holds_recorded_base(site, form, start, moment.stores, base_image)
            },
            IngestView::RecordingDerived { user, base_image } => {
                &&& is_hex_id(form.user_id)
                &&& user == upload_user(form)
                &&& directive matches DirectiveView::InsertImage { doc }
                &&& doc.id is None
                &&& doc.filename == stored_name(form.files[0]) + processed_suffix()
                &&& doc.uri == derived_path(site, form)
                &&& doc.user == upload_user(form)
                &&& holds_derived(site, form, start, moment.stores, base_image)
            },
            IngestView::Linking { base_image, processed_image } => {
                &&& is_hex_id(form.user_id)
                &&& directive matches DirectiveView::InsertProcessing { doc }
                &&& doc.id is None
                &&& doc.base_image == base_image
                &&& doc.processed_image == processed_image
                &&& doc.user == upload_user(form)
                &&& holds_recorded_derived(
                    site,
                    form,
                    start,
                    moment.stores,
                    base_image,
                    processed_image,
                )
            },
        },
        StepView::Done { outcome: Ok(receipt) } => {
            &&& form.files.len() == 1
            &&& is_hex_id(form.user_id)
            &&& holds_all(site, form, start, moment.stores, receipt)
        },
        StepView::Done { outcome: Err(kind) } => ended_in(site, form, start, moment, kind),
    }
}

/// The path of the derived image is not the path of the base image.
pub proof fn derived_path_differs(site: Site, form: UploadFormView)
    ensures
        derived_path(site, form) != base_path(site, form),
{
    reveal_strlit("_processed.jpg");
}

proof fn lemma_first_on_course(
    site: Site,
    form: UploadFormView,
    start: Stores,
    moment: Moment,
)
    requires
        moment.step == first_step(site.root, form),
        moment.stores == start,
    ensures
        on_course(site, form, start, moment),
{
}

proof fn lemma_step_on_course(
    site: Site,
    form: UploadFormView,
    start: Stores,
    earlier: Moment,
    later: Moment,
)
    requires
        on_course(site, form, start, earlier),
        follows(site, earlier, later),
        later.seen == earlier.stores,
    ensures
        on_course(site, form, start, later),
{
    derived_path_differs(site, form);
}

/// Every point of an undisturbed run is on course.
pub proof fn run_stays_on_course(
    site: Site,
    form: UploadFormView,
    start: Stores,
    run: Seq<Moment>,
    i: int,
)
    requires
        is_run(site, form, start, run),
        undisturbed(run),
        0 <= i < run.len(),
    ensures
        on_course(site, form, start, run[i]),
    decreases i,
{
    if i == 0 {
        lemma_first_on_course(site, form, start, run[0]);
    } else {
        run_stays_on_course(site, form, start, run, i - 1);
        lemma_step_on_course(site, form, start, run[i - 1], run[i]);
    }
}

/// How many directives have been answered when the pipeline stands in
/// `state`.
pub open spec fn stage_number(state: IngestView) -> int {
    match state {
        IngestView::WritingBase { .. } => 0,
        IngestView::RecordingBase { .. } => 1,
        IngestView::ReadingBase { .. } => 2,
        IngestView::Decoding { .. } => 3,
        IngestView::WritingDerived { .. } => 4,
        IngestView::RecordingDerived { .. } => 5,
        IngestView::Linking { .. } => 6,
    }
}

/// The pipeline is a straight line: the directive at point `i` of a run is
/// the one of stage `i`, no directive is given twice, and the seventh answer
/// ends the run.
pub proof fn run_is_a_straight_line(
    site: Site,
    form: UploadFormView,
    start: Stores,
    run: Seq<Moment>,
    i: int,
)
    requires
        is_run(site, form, start, run),
        0 <= i < run.len(),
    ensures
        run[i].step matches StepView::Next { state, .. } ==> stage_number(state) == i,
        i <= 7,
        i < run.len() - 1 ==> run[i].step is Next,
    decreases i,
{
    if i > 0 {
        run_is_a_straight_line(site, form, start, run, i - 1);
    }
}

/// An upload of no file, or of more than one, is refused as invalid input
/// at once: no directive is given, and the stores hold what they held.
pub proof fn wrong_file_count_changes_nothing(
    site: Site,
    form: UploadFormView,
    start: Stores,
    run: Seq<Moment>,
)
    requires
        is_run(site, form, start, run),
        form.files.len() != 1,
    ensures
        run.len() == 1,
        run.last().step == (StepView::Done { outcome: Err(ErrorKind::InvalidInput) }),
        run.last().stores == start,
{
}

/// The stores hold a blob at `uri` and, under `id`, an image record of the
/// user of the upload that points at it.
pub open spec fn has_image(
    form: UploadFormView,
    stores: Stores,
    id: Seq<u8>,
    name: Seq<char>,
    uri: Seq<char>,
) -> bool {
    &&& stores.blobs.dom().contains(uri)
    &&& stores.images.dom().contains(id)
    &&& stores.images[id].id == Some(id)
    &&& stores.images[id].filename == name
    &&& stores.images[id].uri == uri
    &&& stores.images[id].user == upload_user(form)
}

/// The stores hold the record of the base image under `base`, and its blob.
pub open spec fn has_base(
    site: Site,
    form: UploadFormView,
    stores: Stores,
    base: Seq<u8>,
) -> bool {
    has_image(form, stores, base, stored_name(form.files[0]), base_path(site, form))
}

/// The stores hold the record of the derived image under `processed`, and
/// its blob.
pub open spec fn has_derived(
    site: Site,
    form: UploadFormView,
    stores: Stores,
    processed: Seq<u8>,
) -> bool {
    has_image(
        form,
        stores,
        processed,
        stored_name(form.files[0]) + processed_suffix(),
        derived_path(site, form),
    )
}

/// The stores hold the processing record of the receipt, which names the
/// two image records of the receipt and the user of the upload.
pub open spec fn has_link(form: UploadFormView, stores: Stores, receipt: ReceiptView) -> bool {
    &&& stores.processings.dom().contains(receipt.processing)
    &&& stores.processings[receipt.processing].id == Some(receipt.processing)
    &&& stores.processings[receipt.processing].base_image == receipt.base_image
    &&& stores.processings[receipt.processing].processed_image == receipt.processed_image
    &&& stores.processings[receipt.processing].user == upload_user(form)
}

/// What holds at every point of a run, whatever other ingestions do
/// meanwhile: the pipeline remembers the upload rightly, asks for the right
/// thing, and what it relies on for its next directive is in the stores.
pub open spec fn in_step(site: Site, form: UploadFormView, moment: Moment) -> bool {
    match moment.step {
        StepView::Next { state, directive } => form.files.len() == 1 && match state {
            IngestView::WritingBase { filename, path, user_id } => {
                &&& filename == stored_name(form.files[0])
                &&& path == base_path(site, form)
                &&& user_id == form.user_id
                &&& directive == (DirectiveView::WriteBlob {
                    path: base_path(site, form),
                    content: upload_content(form),
                })
            },
            IngestView::RecordingBase { filename, path, user } => {
                &&& is_hex_id(form.user_id)
                &&& filename == stored_name(form.files[0])
                &&& path == base_path(site, form)
                &&& user == upload_user(form)
                &&& directive matches DirectiveView::InsertImage { doc }
                &&& doc.id is None
                &&& doc.filename == stored_name(form.files[0])
                &&& doc.uri == base_path(site, form)
                &&& doc.user == upload_user(form)
                &&& moment.stores.blobs.dom().contains(base_path(site, form))
            },
            IngestView::ReadingBase { filename, path, user, base_image } => {
                &&& is_hex_id(form.user_id)
                &&& filename == stored_name(form.files[0])
                &&& path == base_path(site, form)
                &&& user == upload_user(form)
                &&& directive == (DirectiveView::ReadBlob { path: base_path(site, form) })
                &&& has_base(site, form, moment.stores, base_image)
            },
            IngestView::Decoding { filename, path, user, base_image } => {
                &&& is_hex_id(form.user_id)
                &&& filename == stored_name(form.files[0])
                &&& path == base_path(site, form)
                &&& user == upload_user(form)
                &&& directive is Decode
                &&& has_base(site, form, moment.stores, base_image)
            },
            IngestView::WritingDerived { filename, path, user, base_image } => {
                &&& is_hex_id(form.user_id)
                &&& filename == stored_name(form.files[0]) + processed_suffix()
                &&& path == derived_path(site, form)
                &&& user == upload_user(form)
                &&& directive matches DirectiveView::WriteBlob { path: target, .. }
                &&& target == derived_path(site, form)
                &&& has_base(site, form, moment.stores, base_image)
            },
            IngestView::RecordingDerived { user, base_image } => {
                &&& is_hex_id(form.user_id)
                &&& user == upload_user(form)
                &&& directive matches DirectiveView::InsertImage { doc }
                &&& doc.id is None
                &&& doc.filename == stored_name(form.files[0]) + processed_suffix()
                &&& doc.uri == derived_path(site, form)
                &&& doc.user == upload_user(form)
                &&& moment.stores.blobs.dom().contains(derived_path(site, form))
                &&& has_base(site, form, moment.stores, base_image)
            },
            IngestView::Linking { base_image, processed_image } => {
                &&& is_hex_id(form.user_id)
                &&& directive matches DirectiveView::InsertProcessing { doc }
                &&& doc.id is None
                &&& doc.base_image == base_image
                &&& doc.processed_image == processed_image
                &&& doc.user == upload_user(form)
                &&& base_image != processed_image
                &&& has_base(site, form, moment.stores, base_image)
                &&& has_derived(site, form, moment.stores, processed_image)
            },
        },
        StepView::Done { outcome: Ok(receipt) } => {
            &&& form.files.len() == 1
            &&& is_hex_id(form.user_id)
            &&& receipt.base_image != receipt.processed_image
            &&& has_base(site, form, moment.stores, receipt.base_image)
            &&& has_derived(site, form, moment.stores, receipt.processed_image)
            &&& has_link(form, moment.stores, receipt)
        },
        StepView::Done { outcome: Err(_) } => true,
    }
}

proof fn lemma_step_in_step(
    site: Site,
    form: UploadFormView,
    earlier: Moment,
    later: Moment,
)
    requires
        in_step(site, form, earlier),
        follows(site, earlier, later),
    ensures
        in_step(site, form, later),
        grown(earlier.stores, later.stores),
        consistent(earlier.stores) ==> consistent(later.stores),
        disturbed(later.seen, later.stores),
{
}

/// Every point of a run is in step, and the stores only grow from one point
/// to the next.
pub proof fn run_stays_in_step(
    site: Site,
    form: UploadFormView,
    start: Stores,
    run: Seq<Moment>,
    i: int,
)
    requires
        is_run(site, form, start, run),
        0 <= i < run.len(),
    ensures
        in_step(site, form, run[i]),
        grown(start, run[i].stores),
        consistent(start) ==> consistent(run[i].stores),
    decreases i,
{
    if i > 0 {
        run_stays_in_step(site, form, start, run, i - 1);
        lemma_step_in_step(site, form, run[i - 1], run[i]);
    }
}

/// What an ingestion does to the stores in one step is no more than what it
/// puts up with from others between its steps: it adds, and it leaves no
/// record pointing at nothing. So any number of ingestions can share the
/// stores, each being to the others what it assumes of them.
pub proof fn each_step_is_a_fair_disturbance(
    site: Site,
    form: UploadFormView,
    start: Stores,
    run: Seq<Moment>,
    i: int,
)
    requires
        is_run(site, form, start, run),
        1 <= i < run.len(),
    ensures
        disturbed(run[i].seen, run[i].stores),
{
    run_stays_in_step(site, form, start, run, i - 1);
    lemma_step_in_step(site, form, run[i - 1], run[i]);
}

/// Records never point at nothing, and nothing is taken away. If every image
/// record pointed at a blob and every processing record at two image records
/// of its user before an ingestion began, then so it is at every point of
/// the ingestion, however it goes, wherever it ends and whatever other
/// ingestions do meanwhile: a blob is written before its record is inserted,
/// and both image records before the record that links them. And whatever
/// the stores held before, they still hold.
pub proof fn records_never_dangle(
    site: Site,
    form: UploadFormView,
    start: Stores,
    run: Seq<Moment>,
    i: int,
)
    requires
        is_run(site, form, start, run),
        consistent(start),
        0 <= i < run.len(),
    ensures
        consistent(run[i].stores),
        grown(start, run[i].stores),
{
    run_stays_in_step(site, form, start, run, i);
}

/// An ingestion that succeeds leaves three records behind, whatever other
/// ingestions did meanwhile: the processing record is filed under the third
/// identifier of the receipt and names the other two; these are different
/// image records of the user of the upload, one at the path of the base image
/// and one at the path of the derived image, and at both paths there is a
/// blob.
pub proof fn success_leaves_everything_linked(
    site: Site,
    form: UploadFormView,
    start: Stores,
    run: Seq<Moment>,
    receipt: ReceiptView,
)
    requires
        is_run(site, form, start, run),
        run.last().step == (StepView::Done { outcome: Ok(receipt) }),
    ensures
        form.files.len() == 1,
        is_hex_id(form.user_id),
        receipt.base_image != receipt.processed_image,
        has_base(site, form, run.last().stores, receipt.base_image),
        has_derived(site, form, run.last().stores, receipt.processed_image),
        has_link(form, run.last().stores, receipt),
        linked(run.last().stores, run.last().stores.processings[receipt.processing]),
{
    run_stays_in_step(site, form, start, run, run.len() - 1);
}

/// An undisturbed ingestion that succeeds has added to the stores exactly
/// two blobs, two image records and one processing record, under three new
/// identifiers. The blob of the base image holds the uploaded bytes, unchanged,
/// and the other blob holds the image derived from them.
pub proof fn success_adds_exactly_five_things(
    site: Site,
    form: UploadFormView,
    start: Stores,
    run: Seq<Moment>,
    receipt: ReceiptView,
)
    requires
        is_run(site, form, start, run),
        undisturbed(run),
        run.last().step == (StepView::Done { outcome: Ok(receipt) }),
    ensures
        holds_all(site, form, start, run.last().stores, receipt),
        ({
            let stores = run.last().stores;
            let base = stores.images[receipt.base_image];
            let processed = stores.images[receipt.processed_image];
            &&& stores.blobs[base.uri] == upload_content(form)
            &&& upload_derived(site, form) == Ok::<Seq<u8>, ErrorKind>(
                stores.blobs[processed.uri],
            )
        }),
{
    run_stays_on_course(site, form, start, run, run.len() - 1);
    derived_path_differs(site, form);
}

/// The upload reads back. Once the base image has been written, its blob
/// holds the uploaded bytes, exactly, at every later point of an undisturbed
/// ingestion, however that ends: nothing the ingestion does afterwards
/// touches the path of the base image.
pub proof fn upload_reads_back(
    site: Site,
    form: UploadFormView,
    start: Stores,
    run: Seq<Moment>,
    i: int,
)
    requires
        is_run(site, form, start, run),
        undisturbed(run),
        1 <= i < run.len(),
        !(run[1].response is Failed),
    ensures
        run[i].stores.blobs.dom().contains(base_path(site, form)),
        run[i].stores.blobs[base_path(site, form)] == upload_content(form),
    decreases i,
{
    derived_path_differs(site, form);
    run_stays_in_step(site, form, start, run, i - 1);
    run_is_a_straight_line(site, form, start, run, i - 1);
    if i > 1 {
        upload_reads_back(site, form, start, run, i - 1);
    }
}

/// An upload of one file that the decoder reads and the encoder takes, for a
/// well-formed user identifier, succeeds whenever no directive fails and
/// nothing else writes to the stores.
pub proof fn valid_upload_succeeds(
    site: Site,
    form: UploadFormView,
    start: Stores,
    run: Seq<Moment>,
)
    requires
        is_run(site, form, start, run),
        undisturbed(run),
        run.last().step is Done,
        unfailing(run),
        form.files.len() == 1,
        is_hex_id(form.user_id),
        upload_derived(site, form) is Ok,
    ensures
        run.last().step matches StepView::Done { outcome: Ok(_) },
{
    run_stays_on_course(site, form, start, run, run.len() - 1);
}

/// An undisturbed ingestion that ends in a decode error had an upload that
/// the decoder makes no image of, and it has added to the stores exactly the
/// base image and its record: nothing was derived.
pub proof fn decode_error_keeps_the_base_image(
    site: Site,
    form: UploadFormView,
    start: Stores,
    run: Seq<Moment>,
)
    requires
        is_run(site, form, start, run),
        undisturbed(run),
        run.last().step == (StepView::Done { outcome: Err(ErrorKind::DecodeError) }),
    ensures
        upload_derived(site, form) == Err::<Seq<u8>, ErrorKind>(ErrorKind::DecodeError),
        exists|base: Seq<u8>| #[trigger]
            holds_recorded_base(site, form, start, run.last().stores, base),
{
    run_stays_on_course(site, form, start, run, run.len() - 1);
}

/// An upload of one file that the decoder makes no image of, for a
/// well-formed user identifier, ends in a decode error whenever no
/// directive fails and nothing else writes to the stores.
pub proof fn undecodable_upload_ends_in_decode_error(
    site: Site,
    form: UploadFormView,
    start: Stores,
    run: Seq<Moment>,
)
    requires
        is_run(site, form, start, run),
        undisturbed(run),
        run.last().step is Done,
        unfailing(run),
        form.files.len() == 1,
        is_hex_id(form.user_id),
        upload_derived(site, form) == Err::<Seq<u8>, ErrorKind>(ErrorKind::DecodeError),
    ensures
        run.last().step == (StepView::Done { outcome: Err(ErrorKind::DecodeError) }),
{
    run_stays_on_course(site, form, start, run, run.len() - 1);
}

/// An upload of one file for a user identifier that is not one is refused
/// as invalid input once the file has been written, if that succeeds: the
/// identifier is looked at when the record of the base image is made.
pub proof fn malformed_user_id_is_refused(
    site: Site,
    form: UploadFormView,
    start: Stores,
    run: Seq<Moment>,
)
    requires
        is_run(site, form, start, run),
        run.last().step is Done,
        unfailing(run),
        form.files.len() == 1,
        !is_hex_id(form.user_id),
    ensures
        run.len() == 2,
        run.last().step == (StepView::Done { outcome: Err(ErrorKind::InvalidInput) }),
        undisturbed(run) ==> holds_base(site, form, start, run.last().stores),
{
}

/// Every error has its reason. An undisturbed ingestion ends in invalid
/// input only for an upload of the wrong number of files or a user
/// identifier that is not one; in a decode error only for bytes that the
/// decoder makes no image of; in a persistence error only where an insert
/// failed; and in a storage error only where a write or the read failed, or
/// where the encoder refuses the image that was derived.
pub proof fn errors_have_their_reasons(
    site: Site,
    form: UploadFormView,
    start: Stores,
    run: Seq<Moment>,
    kind: ErrorKind,
)
    requires
        is_run(site, form, start, run),
        undisturbed(run),
        run.last().step == (StepView::Done { outcome: Err(kind) }),
    ensures
        match kind {
            ErrorKind::InvalidInput => form.files.len() != 1 || !is_hex_id(form.user_id),
            ErrorKind::DecodeError => {
                &&& form.files.len() == 1
                &&& is_hex_id(form.user_id)
                &&& upload_derived(site, form) == Err::<Seq<u8>, ErrorKind>(ErrorKind::DecodeError)
            },
            ErrorKind::PersistenceError => {
                &&& form.files.len() == 1
                &&& run.len() > 1
                &&& run.last().response is Failed
            },
            ErrorKind::StorageError => {
                &&& form.files.len() == 1
                &&& run.len() > 1
                &&& (run.last().response is Failed || upload_derived(site, form) == Err::<
                    Seq<u8>,
                    ErrorKind,
                >(ErrorKind::StorageError))
            },
        },
{
    run_stays_on_course(site, form, start, run, run.len() - 1);
}

/// Where the insert of the record of the derived image fails, the ingestion
/// ends there in a persistence error, and an undisturbed one has added to
/// the stores both blobs and the record of the base image: no record of the
/// derived image, and no processing record.
pub proof fn failed_derived_record_leaves_two_blobs_and_one_record(
    site: Site,
    form: UploadFormView,
    start: Stores,
    run: Seq<Moment>,
)
    requires
        is_run(site, form, start, run),
        undisturbed(run),
        run.len() == 7,
        run[6].response is Failed,
    ensures
        run.last().step == (StepView::Done { outcome: Err(ErrorKind::PersistenceError) }),
        exists|base: Seq<u8>| #[trigger]
            holds_derived(site, form, start, run.last().stores, base),
{
    run_stays_on_course(site, form, start, run, 5);
    run_is_a_straight_line(site, form, start, run, 5);
}

/// An ingestion that fails has linked nothing: however far it came, the
/// stores hold the processing records that they held before it began, and
/// no other. What it wrote and inserted on the way is not undone.
pub proof fn failure_leaves_no_link(
    site: Site,
    form: UploadFormView,
    start: Stores,
    run: Seq<Moment>,
)
    requires
        is_run(site, form, start, run),
        undisturbed(run),
        run.last().step matches StepView::Done { outcome: Err(_) },
    ensures
        run.last().stores.processings == start.processings,
        grown(start, run.last().stores),
{
    run_stays_on_course(site, form, start, run, run.len() - 1);
    run_stays_in_step(site, form, start, run, run.len() - 1);
}

/// What a failed ingestion has recorded stays unlinked, and so can be told
/// from the records of ingestions that succeeded: where no record pointed
/// at nothing before, no processing record names an image record that the
/// failed ingestion has added.
pub proof fn failure_leaves_its_records_unlinked(
    site: Site,
    form: UploadFormView,
    start: Stores,
    run: Seq<Moment>,
    image: Seq<u8>,
    link: Seq<u8>,
)
    requires
        is_run(site, form, start, run),
        undisturbed(run),
        consistent(start),
        run.last().step matches StepView::Done { outcome: Err(_) },
        run.last().stores.images.dom().contains(image),
        !start.images.dom().contains(image),
        run.last().stores.processings.dom().contains(link),
    ensures
        run.last().stores.processings[link].base_image != image,
        run.last().stores.processings[link].processed_image != image,
{
    failure_leaves_no_link(site, form, start, run);
}

/// Ingesting the same upload a second time is not a repetition of the first:
/// it files new records under new identifiers beside those of the first, all
/// pointing at the same two paths, and writes both blobs again. Afterwards
/// the path of the base image holds the bytes of the second upload.
pub proof fn second_ingestion_adds_new_records(
    site: Site,
    form: UploadFormView,
    start: Stores,
    first: Seq<Moment>,
    first_receipt: ReceiptView,
    second: Seq<Moment>,
    second_receipt: ReceiptView,
)
    requires
        is_run(site, form, start, first),
        undisturbed(first),
        first.last().step == (StepView::Done { outcome: Ok(first_receipt) }),
        is_run(site, form, first.last().stores, second),
        undisturbed(second),
        second.last().step == (StepView::Done { outcome: Ok(second_receipt) }),
    ensures
        ({
            let stores = second.last().stores;
            &&& second_receipt.base_image != first_receipt.base_image
            &&& second_receipt.base_image != first_receipt.processed_image
            &&& second_receipt.processed_image != first_receipt.base_image
            &&& second_receipt.processed_image != first_receipt.processed_image
            &&& second_receipt.processing != first_receipt.processing
            &&& stores.images.dom().contains(first_receipt.base_image)
            &&& stores.images.dom().contains(second_receipt.base_image)
            &&& stores.images[first_receipt.base_image].uri == base_path(site, form)
            &&& stores.images[second_receipt.base_image].uri == base_path(site, form)
            &&& stores.images.dom().contains(first_receipt.processed_image)
            &&& stores.images.dom().contains(second_receipt.processed_image)
            &&& stores.images[first_receipt.processed_image].uri == derived_path(site, form)
            &&& stores.images[second_receipt.processed_image].uri == derived_path(site, form)
            &&& stores.processings.dom().contains(first_receipt.processing)
            &&& stores.processings.dom().contains(second_receipt.processing)
            &&& stores.blobs[base_path(site, form)] == upload_content(form)
        }),
{
    success_adds_exactly_five_things(site, form, start, first, first_receipt);
    success_adds_exactly_five_things(site, form, first.last().stores, second, second_receipt);
    derived_path_differs(site, form);
}

/// The point that follows `earlier` when its directive is answered with
/// `response` at the time `now`, nothing else has written to the stores, and
/// they hold `stores` afterwards.
pub open spec fn answer_to(
    earlier: Moment,
    response: ResponseView,
    now: DateTime,
    stores: Stores,
) -> Moment {
    Moment {
        seen: earlier.stores,
        response,
        now,
        step: match earlier.step {
            StepView::Next { state, .. } => next_step(state, response, now),
            done => done,
        },
        stores,
    }
}

/// The course of an ingestion in which every directive is carried out at
/// the time `at`, the records are filed under the identifiers of `receipt`,
/// and nothing else writes to the stores.
pub open spec fn smooth_run(
    site: Site,
    form: UploadFormView,
    start: Stores,
    receipt: ReceiptView,
    at: DateTime,
) -> Seq<Moment> {
    let image = (site.decoder)(upload_content(form))->0;
    let derived = upload_derived(site, form)->Ok_0;
    let with_base = Stores {
        blobs: start.blobs.insert(base_path(site, form), upload_content(form)),
        images: start.images,
        processings: start.processings,
    };
    let with_base_record = Stores {
        blobs: with_base.blobs,
        images: start.images.insert(
            receipt.base_image,
            base_record(site, form, receipt.base_image, at),
        ),
        processings: start.processings,
    };
    let with_derived = Stores {
        blobs: with_base.blobs.insert(derived_path(site, form), derived),
        images: with_base_record.images,
        processings: start.processings,
    };
    let with_derived_record = Stores {
        blobs: with_derived.blobs,
        images: with_base_record.images.insert(
            receipt.processed_image,
            derived_record(site, form, receipt.processed_image, at),
        ),
        processings: start.processings,
    };
    let with_link = Stores {
        blobs: with_derived.blobs,
        images: with_derived_record.images,
        processings: start.processings.insert(
            receipt.processing,
            link_record(form, receipt, at),
        ),
    };
    let begun = Moment {
        seen: start,
        response: ResponseView::BlobWritten,
        now: at,
        step: first_step(site.root, form),
        stores: start,
    };
    let written = answer_to(begun, ResponseView::BlobWritten, at, with_base);
    let recorded = answer_to(
        written,
        ResponseView::Inserted { id: receipt.base_image },
        at,
        with_base_record,
    );
    let read = answer_to(
        recorded,
        ResponseView::BlobRead { content: upload_content(form) },
        at,
        with_base_record,
    );
    let decoded = answer_to(read, ResponseView::Decoded { image }, at, with_base_record);
    let derived_written = answer_to(decoded, ResponseView::BlobWritten, at, with_derived);
    let derived_recorded = answer_to(
        derived_written,
        ResponseView::Inserted { id: receipt.processed_image },
        at,
        with_derived_record,
    );
    let linked_up = answer_to(
        derived_recorded,
        ResponseView::Inserted { id: receipt.processing },
        at,
        with_link,
    );
    seq![begun, written, recorded, read, decoded, derived_written, derived_recorded, linked_up]
}

/// Success is within reach of every valid upload: where the stores carry
/// out each directive and file the records under identifiers that are new,
/// the ingestion runs through all seven directives and ends with the receipt
/// of those identifiers.
pub proof fn valid_upload_can_succeed(
    site: Site,
    form: UploadFormView,
    start: Stores,
    receipt: ReceiptView,
    at: DateTime,
)
    requires
        form.files.len() == 1,
        is_hex_id(form.user_id),
        upload_derived(site, form) is Ok,
        !start.images.dom().contains(receipt.base_image),
        !start.images.dom().contains(receipt.processed_image),
        receipt.base_image != receipt.processed_image,
        !start.processings.dom().contains(receipt.processing),
    ensures
        is_run(site, form, start, smooth_run(site, form, start, receipt, at)),
        undisturbed(smooth_run(site, form, start, receipt, at)),
        unfailing(smooth_run(site, form, start, receipt, at)),
        smooth_run(site, form, start, receipt, at).last().step == (StepView::Done {
            outcome: Ok(receipt),
        }),
{
}

} // verus!
