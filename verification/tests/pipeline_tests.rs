use image_pipeline::api::processing_api::reply_to;
use image_pipeline::api::processing_api::Directive;
use image_pipeline::api::processing_api::Ingest;
use image_pipeline::api::processing_api::IngestReceipt;
use image_pipeline::api::processing_api::Response;
use image_pipeline::api::processing_api::Step;
use image_pipeline::api::processing_api::UploadForm;
use image_pipeline::api::processing_api::UploadedFile;
use image_pipeline::datetime::DateTime;
use image_pipeline::error::ErrorKind;
use image_pipeline::error::IngestError;
use image_pipeline::models::image_model::Image;
use image_pipeline::models::processing_model::Processing;
use image_pipeline::oid::ObjectId;
use image_pipeline::sweep::orphaned_images;
use image_pipeline::sweep::unrecorded_blobs;
use image_pipeline::transform::derive_image;
use image_pipeline::transform::Raster;
use std::collections::BTreeMap;
use std::io::Cursor;

const USER: &str = "507f1f77bcf86cd799439011";
const ROOT: &str = "./tmp/images";

/// Blobs and records kept in memory, with the directives that arrived.
struct Stores {
    blobs: BTreeMap<String, Vec<u8>>,
    images: Vec<Image>,
    processings: Vec<Processing>,
    served: usize,
    /// The directive, counted from zero, that fails.
    failing: Option<usize>,
}

impl Stores {
    fn new() -> Stores {
        Stores {
            blobs: BTreeMap::new(),
            images: Vec::new(),
            processings: Vec::new(),
            served: 0,
            failing: None,
        }
    }

    fn failing_at(directive: usize) -> Stores {
        Stores { failing: Some(directive), ..Stores::new() }
    }

    fn fresh_id(&self) -> ObjectId {
        let n = (self.images.len() + self.processings.len()) as u8;
        ObjectId::from_bytes([0xaa, 0, 0, 0, 0, 0, 0, 0, 0, 0, 0, n])
    }

    fn serve(&mut self, directive: Directive) -> Response {
        let turn = self.served;
        self.served += 1;
        if self.failing == Some(turn) {
            return Response::Failed { description: format!("directive {turn} failed") };
        }
        match directive {
            Directive::WriteBlob { path, content } => {
                self.blobs.insert(path, content);
                Response::BlobWritten
            }
            Directive::ReadBlob { path } => match self.blobs.get(&path) {
                Some(content) => Response::BlobRead { content: content.clone() },
                None => Response::Failed { description: format!("no blob at {path}") },
            },
            Directive::Decode { content } => decode(&content),
            Directive::InsertImage { doc } => {
                let id = self.fresh_id();
                self.images.push(Image { id: Some(id), ..doc });
                Response::Inserted { id }
            }
            Directive::InsertProcessing { doc } => {
                let id = self.fresh_id();
                self.processings.push(Processing { id: Some(id), ..doc });
                Response::Inserted { id }
            }
        }
    }

    fn ingest(&mut self, form: UploadForm) -> Result<IngestReceipt, IngestError> {
        let mut step = Ingest::begin(ROOT, form);
        loop {
            match step {
                Step::Done { outcome } => return outcome,
                Step::Next { state, directive } => {
                    let response = self.serve(directive);
                    step = state.advance(response);
                }
            }
        }
    }

    fn image(&self, id: ObjectId) -> &Image {
        self.images.iter().find(|image| image.id == Some(id)).unwrap()
    }
}

fn decode(content: &[u8]) -> Response {
    match image::load_from_memory(content) {
        Ok(picture) => {
            let rgba = picture.to_rgba8();
            Response::Decoded {
                width: rgba.width(),
                height: rgba.height(),
                pixels: rgba.into_raw(),
            }
        }
        Err(e) => Response::Undecodable { description: e.to_string() },
    }
}

/// The file derived from the bytes of an image file.
fn derived_from(content: &[u8]) -> Vec<u8> {
    match decode(content) {
        Response::Decoded { width, height, pixels } => {
            derive_image(&Raster::new(width, height, pixels).unwrap()).unwrap()
        }
        other => panic!("{other:?}"),
    }
}

fn cat_png() -> Vec<u8> {
    let picture = image::RgbaImage::from_fn(16, 8, |x, y| {
        image::Rgba([x as u8 * 16, y as u8 * 32, 9, 255])
    });
    let mut bytes = Vec::new();
    picture.write_to(&mut Cursor::new(&mut bytes), image::ImageFormat::Png).unwrap();
    bytes
}

fn file(name: &str, content: Vec<u8>) -> UploadedFile {
    UploadedFile { file_name: Some(name.to_string()), content }
}

fn upload(files: Vec<UploadedFile>) -> UploadForm {
    UploadForm { files, user_id: USER.to_string() }
}

fn user() -> ObjectId {
    ObjectId::parse_str(USER).unwrap()
}

fn id(n: u8) -> ObjectId {
    ObjectId::from_bytes([n; 12])
}

fn at(millis: i64) -> DateTime {
    DateTime::from_millis(millis)
}

fn failed(description: &str) -> Response {
    Response::Failed { description: description.to_string() }
}

fn ended_with(step: Step) -> IngestError {
    match step {
        Step::Done { outcome: Err(e) } => e,
        other => panic!("the ingestion goes on: {other:?}"),
    }
}

#[test]
fn upload_of_one_valid_file_is_stored_twice_and_recorded_thrice() {
    let mut stores = Stores::new();
    let receipt = stores.ingest(upload(vec![file("cat.png", cat_png())])).unwrap();

    assert_ne!(receipt.base_image, receipt.processed_image);
    assert_eq!(
        stores.blobs.keys().collect::<Vec<_>>(),
        ["./tmp/images/cat.png", "./tmp/images/cat.png_processed.jpg"]
    );
    assert_eq!(stores.images.len(), 2);
    assert_eq!(stores.processings.len(), 1);
    assert!(stores.images.iter().all(|image| image.user == user()));

    let link = &stores.processings[0];
    assert_eq!(link.id, Some(receipt.processing));
    assert_eq!(link.base_image, receipt.base_image);
    assert_eq!(link.processed_image, receipt.processed_image);
    assert_eq!(link.user, user());

    let base = stores.image(receipt.base_image);
    assert_eq!(base.filename, "cat.png");
    assert_eq!(base.uri, "./tmp/images/cat.png");
    let processed = stores.image(receipt.processed_image);
    assert_eq!(processed.filename, "cat.png_processed.jpg");
    assert_eq!(processed.uri, "./tmp/images/cat.png_processed.jpg");
    assert!(stores.blobs.contains_key(&base.uri));
    assert!(stores.blobs.contains_key(&processed.uri));
    assert_eq!(stores.served, 7);
}

#[test]
fn base_blob_holds_the_uploaded_bytes() {
    let mut stores = Stores::new();
    let receipt = stores.ingest(upload(vec![file("cat.png", cat_png())])).unwrap();
    let uri = &stores.image(receipt.base_image).uri;
    assert_eq!(stores.blobs[uri], cat_png());
}

#[test]
fn derived_blob_holds_the_derived_image() {
    let mut stores = Stores::new();
    let receipt = stores.ingest(upload(vec![file("cat.png", cat_png())])).unwrap();
    let uri = &stores.image(receipt.processed_image).uri;
    assert_eq!(stores.blobs[uri], derived_from(&cat_png()));
    assert_eq!(image::guess_format(&stores.blobs[uri]).unwrap(), image::ImageFormat::Jpeg);
}

#[test]
fn upload_of_no_file_is_refused_before_anything_is_done() {
    let mut stores = Stores::new();
    let e = stores.ingest(upload(vec![])).unwrap_err();
    assert_eq!(e, IngestError::InvalidInput("Exactly one file must be sent".to_string()));
    assert_eq!(stores.served, 0);
    assert!(stores.blobs.is_empty() && stores.images.is_empty() && stores.processings.is_empty());
}

#[test]
fn upload_of_two_files_is_refused_before_anything_is_done() {
    let mut stores = Stores::new();
    let form = upload(vec![file("cat.png", cat_png()), file("dog.png", cat_png())]);
    let e = stores.ingest(form).unwrap_err();
    assert_eq!(e, IngestError::InvalidInput("Exactly one file must be sent".to_string()));
    assert_eq!(stores.served, 0);
    assert!(stores.blobs.is_empty() && stores.images.is_empty() && stores.processings.is_empty());
}

#[test]
fn begin_decides_without_a_directive_for_a_wrong_file_count() {
    for count in [0usize, 2, 3, 10] {
        let files = (0..count).map(|i| file(&format!("{i}.png"), cat_png())).collect();
        let e = ended_with(Ingest::begin(ROOT, upload(files)));
        assert_eq!(e.kind(), ErrorKind::InvalidInput);
        assert_eq!(e.description(), "Exactly one file must be sent");
    }
}

#[test]
fn begin_asks_for_the_base_image_to_be_written() {
    let step = Ingest::begin("/srv/blobs", upload(vec![file("cat.png", vec![1, 2, 3])]));
    assert_eq!(
        step,
        Step::Next {
            state: Ingest::WritingBase {
                filename: "cat.png".to_string(),
                path: "/srv/blobs/cat.png".to_string(),
                user_id: USER.to_string(),
            },
            directive: Directive::WriteBlob {
                path: "/srv/blobs/cat.png".to_string(),
                content: vec![1, 2, 3],
            },
        }
    );
}

#[test]
fn file_without_a_name_is_stored_under_the_default_name() {
    let form = upload(vec![UploadedFile { file_name: None, content: cat_png() }]);
    let mut stores = Stores::new();
    let receipt = stores.ingest(form).unwrap();
    assert_eq!(
        stores.blobs.keys().collect::<Vec<_>>(),
        ["./tmp/images/default_file_name", "./tmp/images/default_file_name_processed.jpg"]
    );
    assert_eq!(stores.image(receipt.base_image).filename, "default_file_name");
    assert_eq!(
        stores.image(receipt.processed_image).filename,
        "default_file_name_processed.jpg"
    );
}

#[test]
fn upload_that_is_no_image_keeps_the_base_image_and_derives_nothing() {
    let mut stores = Stores::new();
    let e = stores.ingest(upload(vec![file("cat.png", b"no picture".to_vec())])).unwrap_err();
    assert_eq!(e.kind(), ErrorKind::DecodeError);
    assert!(!e.description().is_empty());
    assert_eq!(stores.blobs.keys().collect::<Vec<_>>(), ["./tmp/images/cat.png"]);
    assert_eq!(stores.blobs["./tmp/images/cat.png"], b"no picture");
    assert_eq!(stores.images.len(), 1);
    assert_eq!(stores.images[0].uri, "./tmp/images/cat.png");
    assert_eq!(stores.images[0].user, user());
    assert!(stores.processings.is_empty());
    assert_eq!(stores.served, 4);
}

#[test]
fn ingesting_the_same_upload_twice_records_it_twice() {
    let mut stores = Stores::new();
    let first = stores.ingest(upload(vec![file("cat.png", cat_png())])).unwrap();
    let second = stores.ingest(upload(vec![file("cat.png", cat_png())])).unwrap();

    assert_ne!(first.base_image, second.base_image);
    assert_ne!(first.processed_image, second.processed_image);
    assert_ne!(first.processing, second.processing);
    assert_eq!(stores.images.len(), 4);
    assert_eq!(stores.processings.len(), 2);
    assert_eq!(stores.blobs.len(), 2);
    assert_eq!(stores.image(first.base_image).uri, stores.image(second.base_image).uri);
    assert_eq!(stores.image(first.processed_image).uri, stores.image(second.processed_image).uri);
    assert_eq!(stores.blobs["./tmp/images/cat.png"], cat_png());
}

#[test]
fn second_upload_under_the_same_name_replaces_the_blobs_of_the_first() {
    let other = {
        let picture = image::RgbaImage::from_pixel(8, 8, image::Rgba([200, 100, 50, 255]));
        let mut bytes = Vec::new();
        picture.write_to(&mut Cursor::new(&mut bytes), image::ImageFormat::Png).unwrap();
        bytes
    };
    let mut stores = Stores::new();
    stores.ingest(upload(vec![file("cat.png", cat_png())])).unwrap();
    stores.ingest(upload(vec![file("cat.png", other.clone())])).unwrap();
    assert_eq!(stores.blobs["./tmp/images/cat.png"], other);
    assert_eq!(stores.blobs["./tmp/images/cat.png_processed.jpg"], derived_from(&other));
    assert_eq!(stores.images.len(), 4);
}

#[test]
fn failed_insert_of_the_derived_record_leaves_both_blobs_and_one_record() {
    // Directives: write, insert, read, decode, write, insert (this one fails).
    let mut stores = Stores::failing_at(5);
    let e = stores.ingest(upload(vec![file("cat.png", cat_png())])).unwrap_err();
    assert_eq!(e, IngestError::PersistenceError("directive 5 failed".to_string()));
    assert_eq!(
        stores.blobs.keys().collect::<Vec<_>>(),
        ["./tmp/images/cat.png", "./tmp/images/cat.png_processed.jpg"]
    );
    assert_eq!(stores.images.len(), 1);
    assert_eq!(stores.images[0].uri, "./tmp/images/cat.png");
    assert!(stores.processings.is_empty());
    assert_eq!(stores.served, 6);
}

#[test]
fn failed_write_of_the_base_image_ends_in_a_storage_error() {
    let mut stores = Stores::failing_at(0);
    let e = stores.ingest(upload(vec![file("cat.png", cat_png())])).unwrap_err();
    assert_eq!(e, IngestError::StorageError("directive 0 failed".to_string()));
    assert!(stores.blobs.is_empty() && stores.images.is_empty() && stores.processings.is_empty());
    assert_eq!(stores.served, 1);
}

#[test]
fn failed_insert_of_the_base_image_record_leaves_the_blob_alone() {
    let mut stores = Stores::failing_at(1);
    let e = stores.ingest(upload(vec![file("cat.png", cat_png())])).unwrap_err();
    assert_eq!(e, IngestError::PersistenceError("directive 1 failed".to_string()));
    assert_eq!(stores.blobs.len(), 1);
    assert!(stores.images.is_empty() && stores.processings.is_empty());
}

#[test]
fn failed_read_of_the_base_image_ends_in_a_storage_error() {
    let mut stores = Stores::failing_at(2);
    let e = stores.ingest(upload(vec![file("cat.png", cat_png())])).unwrap_err();
    assert_eq!(e, IngestError::StorageError("directive 2 failed".to_string()));
    assert_eq!(stores.blobs.len(), 1);
    assert_eq!(stores.images.len(), 1);
}

#[test]
fn failed_write_of_the_derived_image_ends_in_a_storage_error() {
    let mut stores = Stores::failing_at(4);
    let e = stores.ingest(upload(vec![file("cat.png", cat_png())])).unwrap_err();
    assert_eq!(e, IngestError::StorageError("directive 4 failed".to_string()));
    assert_eq!(stores.blobs.len(), 1);
    assert_eq!(stores.images.len(), 1);
    assert!(stores.processings.is_empty());
}

#[test]
fn failed_insert_of_the_processing_record_leaves_both_image_records() {
    let mut stores = Stores::failing_at(6);
    let e = stores.ingest(upload(vec![file("cat.png", cat_png())])).unwrap_err();
    assert_eq!(e, IngestError::PersistenceError("directive 6 failed".to_string()));
    assert_eq!(stores.blobs.len(), 2);
    assert_eq!(stores.images.len(), 2);
    assert!(stores.processings.is_empty());
}

#[test]
fn malformed_user_id_is_invalid_input_after_the_base_image_is_written() {
    for user_id in ["", "507f1f77bcf86cd79943901", "507f1f77bcf86cd79943901z", "not an id"] {
        let mut stores = Stores::new();
        let form = UploadForm {
            files: vec![file("cat.png", cat_png())],
            user_id: user_id.to_string(),
        };
        let e = stores.ingest(form).unwrap_err();
        assert_eq!(e, IngestError::InvalidInput("User id should be parsed correctly".to_string()));
        assert_eq!(stores.blobs.len(), 1);
        assert!(stores.images.is_empty() && stores.processings.is_empty());
        assert_eq!(stores.served, 1);
    }
}

#[test]
fn user_id_in_upper_case_names_the_same_user() {
    let mut stores = Stores::new();
    let form = UploadForm {
        files: vec![file("cat.png", cat_png())],
        user_id: "507F1F77BCF86CD799439011".to_string(),
    };
    stores.ingest(form).unwrap();
    assert!(stores.images.iter().all(|image| image.user == user()));
    assert_eq!(stores.processings[0].user, user());
}

#[test]
fn written_base_image_is_recorded_with_the_time_given() {
    let state = Ingest::WritingBase {
        filename: "cat.png".to_string(),
        path: "root/cat.png".to_string(),
        user_id: USER.to_string(),
    };
    assert_eq!(
        state.advance_at(Response::BlobWritten, at(1234)),
        Step::Next {
            state: Ingest::RecordingBase {
                filename: "cat.png".to_string(),
                path: "root/cat.png".to_string(),
                user: user(),
            },
            directive: Directive::InsertImage {
                doc: Image {
                    id: None,
                    filename: "cat.png".to_string(),
                    uri: "root/cat.png".to_string(),
                    timestamp: at(1234),
                    user: user(),
                },
            },
        }
    );
}

#[test]
fn recorded_base_image_is_read_back() {
    let state = Ingest::RecordingBase {
        filename: "cat.png".to_string(),
        path: "root/cat.png".to_string(),
        user: user(),
    };
    assert_eq!(
        state.advance_at(Response::Inserted { id: id(1) }, at(5)),
        Step::Next {
            state: Ingest::ReadingBase {
                filename: "cat.png".to_string(),
                path: "root/cat.png".to_string(),
                user: user(),
                base_image: id(1),
            },
            directive: Directive::ReadBlob { path: "root/cat.png".to_string() },
        }
    );
}

#[test]
fn read_base_image_is_handed_on_for_decoding() {
    let state = Ingest::ReadingBase {
        filename: "cat.png".to_string(),
        path: "root/cat.png".to_string(),
        user: user(),
        base_image: id(1),
    };
    assert_eq!(
        state.advance_at(Response::BlobRead { content: vec![7, 8, 9] }, at(5)),
        Step::Next {
            state: Ingest::Decoding {
                filename: "cat.png".to_string(),
                path: "root/cat.png".to_string(),
                user: user(),
                base_image: id(1),
            },
            directive: Directive::Decode { content: vec![7, 8, 9] },
        }
    );
}

fn decoding() -> Ingest {
    Ingest::Decoding {
        filename: "cat.png".to_string(),
        path: "root/cat.png".to_string(),
        user: user(),
        base_image: id(1),
    }
}

#[test]
fn decoded_base_image_is_derived_and_the_result_written_beside_it() {
    assert_eq!(
        decoding().advance_at(decode(&cat_png()), at(5)),
        Step::Next {
            state: Ingest::WritingDerived {
                filename: "cat.png_processed.jpg".to_string(),
                path: "root/cat.png_processed.jpg".to_string(),
                user: user(),
                base_image: id(1),
            },
            directive: Directive::WriteBlob {
                path: "root/cat.png_processed.jpg".to_string(),
                content: derived_from(&cat_png()),
            },
        }
    );
}

#[test]
fn what_was_decoded_is_what_is_derived_from() {
    let other = {
        let picture = image::RgbaImage::from_pixel(8, 8, image::Rgba([1, 2, 3, 255]));
        let mut bytes = Vec::new();
        picture.write_to(&mut Cursor::new(&mut bytes), image::ImageFormat::Png).unwrap();
        bytes
    };
    match decoding().advance_at(decode(&other), at(5)) {
        Step::Next { directive: Directive::WriteBlob { content, .. }, .. } => {
            assert_eq!(content, derived_from(&other));
            assert_ne!(content, derived_from(&cat_png()));
        }
        step => panic!("{step:?}"),
    }
}

#[test]
fn with_derived_goes_on_with_the_derived_bytes() {
    let step = Ingest::with_derived(
        "a.gif".to_string(),
        "r/a.gif".to_string(),
        user(),
        id(3),
        Ok(vec![9, 8, 7]),
    );
    assert_eq!(
        step,
        Step::Next {
            state: Ingest::WritingDerived {
                filename: "a.gif_processed.jpg".to_string(),
                path: "r/a.gif_processed.jpg".to_string(),
                user: user(),
                base_image: id(3),
            },
            directive: Directive::WriteBlob {
                path: "r/a.gif_processed.jpg".to_string(),
                content: vec![9, 8, 7],
            },
        }
    );
}

#[test]
fn with_derived_ends_with_the_error_given() {
    for e in [
        IngestError::DecodeError("bad header".to_string()),
        IngestError::StorageError("too wide".to_string()),
    ] {
        let again = IngestError::of(e.kind(), e.description());
        let step =
            Ingest::with_derived("a".to_string(), "r/a".to_string(), user(), id(3), Err(e));
        assert_eq!(step, Step::Done { outcome: Err(again) });
    }
}

#[test]
fn written_derived_image_is_recorded_under_its_own_name_and_path() {
    let state = Ingest::WritingDerived {
        filename: "cat.png_processed.jpg".to_string(),
        path: "root/cat.png_processed.jpg".to_string(),
        user: user(),
        base_image: id(1),
    };
    assert_eq!(
        state.advance_at(Response::BlobWritten, at(77)),
        Step::Next {
            state: Ingest::RecordingDerived { user: user(), base_image: id(1) },
            directive: Directive::InsertImage {
                doc: Image {
                    id: None,
                    filename: "cat.png_processed.jpg".to_string(),
                    uri: "root/cat.png_processed.jpg".to_string(),
                    timestamp: at(77),
                    user: user(),
                },
            },
        }
    );
}

#[test]
fn recorded_derived_image_is_linked_to_the_base_image() {
    let state = Ingest::RecordingDerived { user: user(), base_image: id(1) };
    assert_eq!(
        state.advance_at(Response::Inserted { id: id(2) }, at(88)),
        Step::Next {
            state: Ingest::Linking { base_image: id(1), processed_image: id(2) },
            directive: Directive::InsertProcessing {
                doc: Processing {
                    id: None,
                    timestamp: at(88),
                    base_image: id(1),
                    processed_image: id(2),
                    user: user(),
                },
            },
        }
    );
}

#[test]
fn inserted_link_ends_the_ingestion_with_the_three_identifiers() {
    let state = Ingest::Linking { base_image: id(1), processed_image: id(2) };
    assert_eq!(
        state.advance_at(Response::Inserted { id: id(3) }, at(99)),
        Step::Done {
            outcome: Ok(IngestReceipt {
                base_image: id(1),
                processed_image: id(2),
                processing: id(3),
            }),
        }
    );
}

#[test]
fn failure_is_reported_in_the_kind_of_the_stage_and_the_words_of_the_driver() {
    let stages: Vec<(Ingest, ErrorKind)> = vec![
        (
            Ingest::WritingBase {
                filename: "a".to_string(),
                path: "r/a".to_string(),
                user_id: USER.to_string(),
            },
            ErrorKind::StorageError,
        ),
        (
            Ingest::RecordingBase {
                filename: "a".to_string(),
                path: "r/a".to_string(),
                user: user(),
            },
            ErrorKind::PersistenceError,
        ),
        (
            Ingest::ReadingBase {
                filename: "a".to_string(),
                path: "r/a".to_string(),
                user: user(),
                base_image: id(1),
            },
            ErrorKind::StorageError,
        ),
        (decoding(), ErrorKind::DecodeError),
        (
            Ingest::WritingDerived {
                filename: "a".to_string(),
                path: "r/a".to_string(),
                user: user(),
                base_image: id(1),
            },
            ErrorKind::StorageError,
        ),
        (
            Ingest::RecordingDerived { user: user(), base_image: id(1) },
            ErrorKind::PersistenceError,
        ),
        (
            Ingest::Linking { base_image: id(1), processed_image: id(2) },
            ErrorKind::PersistenceError,
        ),
    ];
    for (state, kind) in stages {
        let e = ended_with(state.advance_at(failed("disk on fire"), at(0)));
        assert_eq!(e, IngestError::of(kind, "disk on fire".to_string()));
    }
}

#[test]
fn response_out_of_turn_ends_the_ingestion() {
    let text = "The response does not answer the directive";
    let e = ended_with(
        Ingest::Linking { base_image: id(1), processed_image: id(2) }
            .advance_at(Response::BlobWritten, at(0)),
    );
    assert_eq!(e, IngestError::PersistenceError(text.to_string()));
    let e = ended_with(
        Ingest::RecordingDerived { user: user(), base_image: id(1) }
            .advance_at(Response::BlobRead { content: vec![] }, at(0)),
    );
    assert_eq!(e, IngestError::PersistenceError(text.to_string()));
    let e = ended_with(
        Ingest::WritingBase {
            filename: "a".to_string(),
            path: "r/a".to_string(),
            user_id: USER.to_string(),
        }
        .advance_at(Response::Inserted { id: id(1) }, at(0)),
    );
    assert_eq!(e, IngestError::StorageError(text.to_string()));
    let e = ended_with(
        Ingest::ReadingBase {
            filename: "a".to_string(),
            path: "r/a".to_string(),
            user: user(),
            base_image: id(1),
        }
        .advance_at(Response::BlobWritten, at(0)),
    );
    assert_eq!(e, IngestError::StorageError(text.to_string()));
}

#[test]
fn advance_stamps_records_with_the_time_of_the_call() {
    let before = DateTime::now();
    let state = Ingest::RecordingDerived { user: user(), base_image: id(1) };
    match state.advance(Response::Inserted { id: id(2) }) {
        Step::Next { directive: Directive::InsertProcessing { doc }, .. } => {
            assert!(doc.timestamp.timestamp_millis() >= before.timestamp_millis());
            assert!(doc.timestamp.timestamp_millis() <= before.timestamp_millis() + 60_000);
            assert_eq!((doc.base_image, doc.processed_image, doc.user), (id(1), id(2), user()));
        }
        step => panic!("{step:?}"),
    }
}

#[test]
fn new_records_have_no_identifier() {
    let image = Image::new("a".to_string(), "r/a".to_string(), at(3), user());
    assert_eq!(
        image,
        Image {
            id: None,
            filename: "a".to_string(),
            uri: "r/a".to_string(),
            timestamp: at(3),
            user: user(),
        }
    );
    let link = Processing::new(at(4), id(1), id(2), user());
    assert_eq!(
        link,
        Processing {
            id: None,
            timestamp: at(4),
            base_image: id(1),
            processed_image: id(2),
            user: user(),
        }
    );
}

#[test]
fn sweep_finds_what_a_broken_off_ingestion_left_behind() {
    let mut stores = Stores::new();
    let kept = stores.ingest(upload(vec![file("dog.png", cat_png())])).unwrap();
    stores.failing = Some(stores.served + 5);
    stores.ingest(upload(vec![file("cat.png", cat_png())])).unwrap_err();

    let paths: Vec<String> = stores.blobs.keys().cloned().collect();
    assert_eq!(
        unrecorded_blobs(&paths, &stores.images),
        vec!["./tmp/images/cat.png_processed.jpg".to_string()]
    );
    let later = DateTime::from_millis(i64::MAX);
    let orphans = orphaned_images(&stores.images, &stores.processings, later);
    assert_eq!(orphans.len(), 1);
    assert_eq!(stores.image(orphans[0]).uri, "./tmp/images/cat.png");
    assert_ne!(orphans[0], kept.base_image);
    assert_ne!(orphans[0], kept.processed_image);
}

#[test]
fn sweep_finds_nothing_after_ingestions_that_succeeded() {
    let mut stores = Stores::new();
    stores.ingest(upload(vec![file("dog.png", cat_png())])).unwrap();
    stores.ingest(upload(vec![file("cat.png", cat_png())])).unwrap();
    let paths: Vec<String> = stores.blobs.keys().cloned().collect();
    assert_eq!(unrecorded_blobs(&paths, &stores.images), Vec::<String>::new());
    let later = DateTime::from_millis(i64::MAX);
    assert_eq!(orphaned_images(&stores.images, &stores.processings, later), vec![]);
}

#[test]
fn upload_of_cat_png_is_answered_with_200_and_two_identifiers() {
    let mut stores = Stores::new();
    let outcome = stores.ingest(upload(vec![file("cat.png", cat_png())]));
    let reply = reply_to(&outcome);
    let receipt = outcome.unwrap();
    assert_eq!(reply.status, 200);
    assert_ne!(receipt.base_image.to_hex(), receipt.processed_image.to_hex());
    assert!(reply.body.contains(&receipt.base_image.to_hex()));
    assert!(reply.body.contains(&receipt.processed_image.to_hex()));
    assert_eq!(stores.images.len(), 2);
    assert_eq!(stores.processings.len(), 1);
    assert!(stores.images.iter().all(|image| image.user.to_hex() == USER));
    assert_eq!(stores.processings[0].user.to_hex(), USER);
}

#[test]
fn upload_of_no_file_is_answered_with_400() {
    let mut stores = Stores::new();
    let reply = reply_to(&stores.ingest(upload(vec![])));
    assert_eq!(reply.status, 400);
    assert_eq!(reply.body, "Exactly one file must be sent");
    assert_eq!(stores.served, 0);
}

#[test]
fn upload_of_two_files_is_answered_with_400() {
    let mut stores = Stores::new();
    let form = upload(vec![file("cat.png", cat_png()), file("dog.png", cat_png())]);
    let reply = reply_to(&stores.ingest(form));
    assert_eq!(reply.status, 400);
    assert_eq!(stores.served, 0);
}

#[test]
fn failed_insert_of_the_derived_record_is_answered_with_500() {
    let mut stores = Stores::failing_at(5);
    let reply = reply_to(&stores.ingest(upload(vec![file("cat.png", cat_png())])));
    assert_eq!(reply.status, 500);
    assert_eq!(reply.body, "directive 5 failed");
    assert_eq!(stores.blobs.len(), 2);
    assert_eq!(stores.images.len(), 1);
    assert_eq!(stores.processings.len(), 0);
}

#[test]
fn upload_that_is_no_image_is_answered_with_500() {
    let mut stores = Stores::new();
    let reply = reply_to(&stores.ingest(upload(vec![file("cat.png", vec![1, 2, 3])])));
    assert_eq!(reply.status, 500);
    assert!(!reply.body.is_empty());
}

#[test]
fn undecodable_bytes_end_in_a_decode_error_in_the_words_of_the_decoder() {
    let refused = Response::Undecodable { description: "no such format".to_string() };
    let e = ended_with(decoding().advance_at(refused, at(0)));
    assert_eq!(e, IngestError::DecodeError("no such format".to_string()));
}

#[test]
fn decoder_that_fails_ends_the_ingestion_in_a_decode_error() {
    let mut stores = Stores::failing_at(3);
    let e = stores.ingest(upload(vec![file("cat.png", cat_png())])).unwrap_err();
    assert_eq!(e, IngestError::DecodeError("directive 3 failed".to_string()));
    assert_eq!(stores.blobs.len(), 1);
    assert_eq!(stores.images.len(), 1);
    assert!(stores.processings.is_empty());
}

#[test]
fn decoded_image_of_the_wrong_size_ends_in_a_decode_error() {
    for pixels in [vec![], vec![0; 15], vec![0; 17]] {
        let decoded = Response::Decoded { width: 2, height: 2, pixels };
        let e = ended_with(decoding().advance_at(decoded, at(0)));
        assert_eq!(e, IngestError::DecodeError("The decoded image is misshapen".to_string()));
    }
}

#[test]
fn image_that_the_encoder_refuses_ends_in_a_storage_error_in_its_words() {
    let wide = Raster::new(65_536, 1, vec![0; 4 * 65_536]).unwrap();
    let refusal = wide.to_jpeg().unwrap_err();
    assert_eq!(refusal.kind(), ErrorKind::StorageError);
    let decoded = Response::Decoded { width: 65_536, height: 1, pixels: vec![0; 4 * 65_536] };
    let e = ended_with(decoding().advance_at(decoded, at(0)));
    assert_eq!(e, refusal);
}

#[test]
fn derived_record_under_the_identifier_of_the_base_image_is_not_linked() {
    let state = Ingest::RecordingDerived { user: user(), base_image: id(1) };
    let e = ended_with(state.advance_at(Response::Inserted { id: id(1) }, at(0)));
    assert_eq!(
        e,
        IngestError::PersistenceError(
            "The store gave the derived image the identifier of the base image".to_string()
        )
    );
}

#[test]
fn store_that_repeats_an_identifier_gets_no_processing_record() {
    // A store that files every image record under the same identifier.
    let form = upload(vec![file("cat.png", cat_png())]);
    let mut step = Ingest::begin(ROOT, form);
    let mut asked_to_link = false;
    let outcome = loop {
        match step {
            Step::Done { outcome } => break outcome,
            Step::Next { state, directive } => {
                let response = match directive {
                    Directive::WriteBlob { .. } => Response::BlobWritten,
                    Directive::ReadBlob { .. } => Response::BlobRead { content: cat_png() },
                    Directive::Decode { content } => decode(&content),
                    Directive::InsertImage { .. } => Response::Inserted { id: id(9) },
                    Directive::InsertProcessing { .. } => {
                        asked_to_link = true;
                        Response::Inserted { id: id(10) }
                    }
                };
                step = state.advance_at(response, at(0));
            }
        }
    };
    assert_eq!(outcome.unwrap_err().kind(), ErrorKind::PersistenceError);
    assert!(!asked_to_link);
}

#[test]
fn refusal_tells_an_upload_of_one_file_from_every_other() {
    assert_eq!(Ingest::refusal(1), None);
    for count in [0usize, 2, 3, usize::MAX] {
        assert_eq!(
            Ingest::refusal(count),
            Some(IngestError::InvalidInput("Exactly one file must be sent".to_string()))
        );
    }
}

#[test]
fn decoding_is_out_of_turn_at_every_other_stage() {
    let text = "The response does not answer the directive";
    let state = Ingest::RecordingDerived { user: user(), base_image: id(1) };
    let e = ended_with(state.advance_at(decode(&cat_png()), at(0)));
    assert_eq!(e, IngestError::PersistenceError(text.to_string()));
    let state = Ingest::Linking { base_image: id(1), processed_image: id(2) };
    let refused = Response::Undecodable { description: "no".to_string() };
    let e = ended_with(state.advance_at(refused, at(0)));
    assert_eq!(e, IngestError::PersistenceError(text.to_string()));
    let e = ended_with(decoding().advance_at(Response::BlobWritten, at(0)));
    assert_eq!(e, IngestError::DecodeError(text.to_string()));
}

#[test]
fn root_that_ends_in_a_slash_gets_no_second_one() {
    for (root, path) in [
        ("./tmp/images/", "./tmp/images/cat.png"),
        ("./tmp/images", "./tmp/images/cat.png"),
        ("/", "/cat.png"),
        ("", "/cat.png"),
        ("blobs//", "blobs//cat.png"),
    ] {
        match Ingest::begin(root, upload(vec![file("cat.png", vec![1])])) {
            Step::Next { state, directive } => {
                assert_eq!(
                    directive,
                    Directive::WriteBlob { path: path.to_string(), content: vec![1] }
                );
                assert_eq!(
                    state,
                    Ingest::WritingBase {
                        filename: "cat.png".to_string(),
                        path: path.to_string(),
                        user_id: USER.to_string(),
                    }
                );
            }
            step => panic!("{step:?}"),
        }
    }
}

#[test]
fn decoded_image_without_rows_goes_to_the_encoder_where_a_word_can_count_a_row() {
    let decoded = Response::Decoded { width: u32::MAX, height: 0, pixels: vec![] };
    let e = ended_with(decoding().advance_at(decoded, at(0)));
    if usize::BITS > 32 {
        assert_eq!(e.kind(), ErrorKind::StorageError);
    } else {
        assert_eq!(e.kind(), ErrorKind::DecodeError);
    }
}
