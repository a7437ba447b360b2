//! The record that links an image to the image derived from it.

use crate::datetime::DateTime;
use crate::oid::ObjectId;
use vstd::prelude::*;

verus! {

/// A processing record. `id` is absent until the store has assigned one.
#[derive(Clone, Copy, Debug, PartialEq, Eq)]
pub struct Processing {
    pub id: Option<ObjectId>,
    pub timestamp: DateTime,
    pub base_image: ObjectId,
    pub processed_image: ObjectId,
    pub user: ObjectId,
}

/// A processing record as a mathematical value.
pub struct ProcessingView {
    pub id: Option<Seq<u8>>,
    pub timestamp: DateTime,
    pub base_image: Seq<u8>,
    pub processed_image: Seq<u8>,
    pub user: Seq<u8>,
}

impl View for Processing {
    type V = ProcessingView;

    open spec fn view(&self) -> ProcessingView {
        ProcessingView {
            id: match self.id {
                Some(id) => Some(id@),
                None => None,
            },
            timestamp: self.timestamp,
            base_image: self.base_image@,
            processed_image: self.processed_image@,
            user: self.user@,
        }
    }
}

impl Processing {
    /// A record that has not been stored yet.
    pub fn new(
        timestamp: DateTime,
        base_image: ObjectId,
        processed_image: ObjectId,
        user: ObjectId,
    ) -> (doc: Processing)
        ensures
            doc@ == (ProcessingView {
                id: None,
                timestamp,
                base_image: base_image@,
                processed_image: processed_image@,
                user: user@,
            }),
    {
        Processing { id: None, timestamp, base_image, processed_image, user }
    }

    /// The record as it is handed to the store for insertion: whatever
    /// identifier it carried is dropped, since the store assigns one.
    pub fn without_id(self) -> (doc: Processing)
        ensures
            doc@ == (ProcessingView {
                id: None,
                timestamp: self@.timestamp,
                base_image: self@.base_image,
                processed_image: self@.processed_image,
                user: self@.user,
            }),
    {
        Processing {
            id: None,
            timestamp: self.timestamp,
            base_image: self.base_image,
            processed_image: self.processed_image,
            user: self.user,
        }
    }
}

} // verus!
