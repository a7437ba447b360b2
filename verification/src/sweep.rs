//! Finding what broken-off ingestions have left behind.
//!
//! An ingestion that fails half way does not undo what it has done: the
//! blob it wrote stays without a record, or the record it inserted stays
//! without a link. Nothing in the stores points at such leftovers, so they
//! are found by going through what the stores hold.

use crate::datetime::DateTime;
use crate::models::image_model::Image;
use crate::models::processing_model::Processing;
use crate::oid::ObjectId;
use vstd::prelude::*;

verus! {

/// Whether one of the processing records names the image record `id`, as
/// the image it started from or as the image it derived.
pub open spec fn is_linked(links: Seq<Processing>, id: ObjectId) -> bool {
    exists|k: int|
        0 <= k < links.len() && ((#[trigger] links[k]).base_image == id || links[k].processed_image
            == id)
}

/// An image record is orphaned when it was made before `before` and no
/// processing record names it.
pub open spec fn is_orphaned(image: Image, links: Seq<Processing>, before: DateTime) -> bool {
    &&& image.id matches Some(id)
    &&& image.timestamp.millis < before.millis
    &&& !is_linked(links, id)
}

/// The identifiers of the orphaned records among `images`, in their order.
pub open spec fn orphaned_among(
    images: Seq<Image>,
    links: Seq<Processing>,
    before: DateTime,
) -> Seq<ObjectId>
    decreases images.len(),
{
    if images.len() == 0 {
        Seq::empty()
    } else {
        let earlier = orphaned_among(images.drop_last(), links, before);
        if is_orphaned(images.last(), links, before) {
            earlier.push(images.last().id->0)
        } else {
            earlier
        }
    }
}

/// Whether one of the image records points at the blob at `path`.
pub open spec fn is_recorded(images: Seq<Image>, path: Seq<char>) -> bool {
    exists|k: int| 0 <= k < images.len() && (#[trigger] images[k]).uri@ == path
}

/// The paths among `paths` at which no image record points, in their order.
pub open spec fn unrecorded_among(paths: Seq<String>, images: Seq<Image>) -> Seq<String>
    decreases paths.len(),
{
    if paths.len() == 0 {
        Seq::empty()
    } else {
        let earlier = unrecorded_among(paths.drop_last(), images);
        if is_recorded(images, paths.last()@) {
            earlier
        } else {
            earlier.push(paths.last())
        }
    }
}

/// Whether one of the processing records names the image record `id`.
pub fn linked(links: &Vec<Processing>, id: &ObjectId) -> (found: bool)
    ensures
        found == is_linked(links@, *id),
{
    let mut k: usize = 0;
    while k < links.len()
        invariant
            k <= links.len(),
            forall|j: int|
                0 <= j < k ==> (#[trigger] links@[j]).base_image != *id && links@[j].processed_image
                    != *id,
        decreases links.len() - k,
    {
        if links[k].base_image.same(id) || links[k].processed_image.same(id) {
            return true;
        }
        k += 1;
    }
    false
}

/// Whether one of the image records points at the blob at `path`.
pub fn recorded(images: &Vec<Image>, path: &String) -> (found: bool)
    ensures
        found == is_recorded(images@, path@),
{
    let mut k: usize = 0;
    while k < images.len()
        invariant
            k <= images.len(),
            forall|j: int| 0 <= j < k ==> (#[trigger] images@[j]).uri@ != path@,
        decreases images.len() - k,
    {
        if images[k].uri == *path {
            return true;
        }
        k += 1;
    }
    false
}

/// The identifiers of the image records that were made before `before` and
/// that no processing record names: what ingestions left behind that broke
/// off between the record of an image and the record that links it. Records
/// of ingestions that are still under way are left out by a `before` that
/// lies far enough in the past.
pub fn orphaned_images(images: &Vec<Image>, links: &Vec<Processing>, before: DateTime) -> (orphans:
    Vec<ObjectId>)
    ensures
        orphans@ == orphaned_among(images@, links@, before),
{
    let mut orphans: Vec<ObjectId> = Vec::new();
    let mut i: usize = 0;
    while i < images.len()
        invariant
            i <= images.len(),
            orphans@ == orphaned_among(images@.take(i as int), links@, before),
        decreases images.len() - i,
    {
        assert(images@.take(i + 1).drop_last() == images@.take(i as int));
        if let Some(id) = images[i].id {
            if images[i].timestamp.millis < before.millis && !linked(links, &id) {
                orphans.push(id);
            }
        }
        i += 1;
    }
    assert(images@.take(images.len() as int) == images@);
    orphans
}

/// The paths among `paths` at which no image record points: what
/// ingestions left behind that broke off between the writing of a blob and
/// its record.
pub fn unrecorded_blobs(paths: &Vec<String>, images: &Vec<Image>) -> (orphans: Vec<String>)
    ensures
        orphans@ == unrecorded_among(paths@, images@),
{
    let mut orphans: Vec<String> = Vec::new();
    let mut i: usize = 0;
    while i < paths.len()
        invariant
            i <= paths.len(),
            orphans@ == unrecorded_among(paths@.take(i as int), images@),
        decreases paths.len() - i,
    {
        assert(paths@.take(i + 1).drop_last() == paths@.take(i as int));
        if !recorded(images, &paths[i]) {
            orphans.push(paths[i].clone());
        }
        i += 1;
    }
    assert(paths@.take(paths.len() as int) == paths@);
    orphans
}

} // verus!
