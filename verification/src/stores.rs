//! The blob store, the metadata store and the decoder, as far as the
//! pipeline relies on them: what the stores hold, and how a directive is
//! answered.

use crate::api::processing_api::DirectiveView;
use crate::api::processing_api::ResponseView;
use crate::models::image_model::ImageView;
use crate::models::processing_model::ProcessingView;
use crate::transform::RasterView;
use vstd::prelude::*;

verus! {

/// What the two stores hold: blobs by path, records by identifier.
pub struct Stores {
    pub blobs: Map<Seq<char>, Seq<u8>>,
    pub images: Map<Seq<u8>, ImageView>,
    pub processings: Map<Seq<u8>, ProcessingView>,
}

/// An image record as the store keeps it under the identifier it assigned.
pub open spec fn stored_image(doc: ImageView, id: Seq<u8>) -> ImageView {
    ImageView {
        id: Some(id),
        filename: doc.filename,
        uri: doc.uri,
        timestamp: doc.timestamp,
        user: doc.user,
    }
}

/// A processing record as the store keeps it under the identifier it
/// assigned.
pub open spec fn stored_processing(doc: ProcessingView, id: Seq<u8>) -> ProcessingView {
    ProcessingView {
        id: Some(id),
        timestamp: doc.timestamp,
        base_image: doc.base_image,
        processed_image: doc.processed_image,
        user: doc.user,
    }
}

/// Two sets of blobs differ at `path` at most, and a blob that was at `path`
/// is still there, whatever it holds now.
pub open spec fn same_blobs_but(
    pre: Map<Seq<char>, Seq<u8>>,
    post: Map<Seq<char>, Seq<u8>>,
    path: Seq<char>,
) -> bool {
    &&& forall|other: Seq<char>|
        other != path ==> (#[trigger] post.dom().contains(other) <==> pre.dom().contains(other))
    &&& forall|other: Seq<char>|
        other != path && pre.dom().contains(other) ==> #[trigger] post[other] == pre[other]
    &&& pre.dom().contains(path) ==> post.dom().contains(path)
}

/// What a decoder makes of the bytes of a file: the image as eight-bit RGBA,
/// or nothing where it refuses them.
pub type Decoder = spec_fn(Seq<u8>) -> Option<RasterView>;

/// Whether the stores, holding `pre`, and the decoder can answer `directive`
/// with `response`, the stores holding `post` afterwards, while nothing else
/// writes to them.
///
/// A write replaces what is at the path. An insert is filed under an
/// identifier that no record of its kind has yet. A read reports what is at
/// the path. The decoder gives the same answer to the same bytes and leaves
/// the stores alone. A directive that fails leaves the records as they were;
/// of the blobs, a failed write may have spoilt the one it was writing.
pub open spec fn answered(
    decoder: Decoder,
    pre: Stores,
    directive: DirectiveView,
    response: ResponseView,
    post: Stores,
) -> bool {
    match directive {
        DirectiveView::WriteBlob { path, content } => match response {
            ResponseView::BlobWritten => post == (Stores {
                blobs: pre.blobs.insert(path, content),
                images: pre.images,
                processings: pre.processings,
            }),
            ResponseView::Failed { .. } => {
                &&& post.images == pre.images
                &&& post.processings == pre.processings
                &&& same_blobs_but(pre.blobs, post.blobs, path)
            },
            _ => false,
        },
        DirectiveView::ReadBlob { path } => post == pre && match response {
            ResponseView::BlobRead { content } => pre.blobs.dom().contains(path) && content
                == pre.blobs[path],
            ResponseView::Failed { .. } => true,
            _ => false,
        },
        DirectiveView::Decode { content } => post == pre && match response {
            ResponseView::Decoded { image } => decoder(content) == Some(image),
            ResponseView::Undecodable { .. } => decoder(content) is None,
            _ => false,
        },
        DirectiveView::InsertImage { doc } => match response {
            ResponseView::Inserted { id } => {
                &&& !pre.images.dom().contains(id)
                &&& post == (Stores {
                    blobs: pre.blobs,
                    images: pre.images.insert(id, stored_image(doc, id)),
                    processings: pre.processings,
                })
            },
            ResponseView::Failed { .. } => post == pre,
            _ => false,
        },
        DirectiveView::InsertProcessing { doc } => match response {
            ResponseView::Inserted { id } => {
                &&& !pre.processings.dom().contains(id)
                &&& post == (Stores {
                    blobs: pre.blobs,
                    images: pre.images,
                    processings: pre.processings.insert(id, stored_processing(doc, id)),
                })
            },
            ResponseView::Failed { .. } => post == pre,
            _ => false,
        },
    }
}

/// A processing record refers to two different image records that exist and
/// belong to the user of the processing record.
pub open spec fn linked(stores: Stores, link: ProcessingView) -> bool {
    &&& stores.images.dom().contains(link.base_image)
    &&& stores.images.dom().contains(link.processed_image)
    &&& link.base_image != link.processed_image
    &&& stores.images[link.base_image].user == link.user
    &&& stores.images[link.processed_image].user == link.user
}

/// Every record points at something that exists: an image record at a blob,
/// a processing record at two image records.
pub open spec fn consistent(stores: Stores) -> bool {
    &&& forall|id: Seq<u8>| #[trigger]
        stores.images.dom().contains(id) ==> stores.blobs.dom().contains(stores.images[id].uri)
    &&& forall|id: Seq<u8>| #[trigger]
        stores.processings.dom().contains(id) ==> linked(stores, stores.processings[id])
}

/// `post` holds all that `pre` holds: no blob has gone, though any may have
/// been written again, and no record has gone or changed.
pub open spec fn grown(pre: Stores, post: Stores) -> bool {
    &&& forall|path: Seq<char>| #[trigger]
        pre.blobs.dom().contains(path) ==> post.blobs.dom().contains(path)
    &&& forall|id: Seq<u8>| #[trigger]
        pre.images.dom().contains(id) ==> post.images.dom().contains(id) && post.images[id]
            == pre.images[id]
    &&& forall|id: Seq<u8>| #[trigger]
        pre.processings.dom().contains(id) ==> post.processings.dom().contains(id)
            && post.processings[id] == pre.processings[id]
}

/// What other ingestions may do to the stores between two directives of
/// this one: they add, and they leave no record pointing at nothing.
pub open spec fn disturbed(pre: Stores, post: Stores) -> bool {
    &&& grown(pre, post)
    &&& consistent(pre) ==> consistent(post)
}

} // verus!
