//! The record of one stored image.

use crate::datetime::DateTime;
use crate::oid::ObjectId;
use vstd::prelude::*;

verus! {

/// An image record. `id` is absent until the store has assigned one.
#[derive(Debug, PartialEq, Eq)]
pub struct Image {
    pub id: Option<ObjectId>,
    pub filename: String,
    pub uri: String,
    pub timestamp: DateTime,
    pub user: ObjectId,
}

/// An image record as a mathematical value.
pub struct ImageView {
    pub id: Option<Seq<u8>>,
    pub filename: Seq<char>,
    pub uri: Seq<char>,
    pub timestamp: DateTime,
    pub user: Seq<u8>,
}

impl View for Image {
    type V = ImageView;

    open spec fn view(&self) -> ImageView {
        ImageView {
            id: match self.id {
                Some(id) => Some(id@),
                None => None,
            },
            filename: self.filename@,
            uri: self.uri@,
            timestamp: self.timestamp,
            user: self.user@,
        }
    }
}

impl Image {
    /// A record that has not been stored yet.
    pub fn new(filename: String, uri: String, timestamp: DateTime, user: ObjectId) -> (doc: Image)
        ensures
            doc@ == (ImageView {
                id: None,
                filename: filename@,
                uri: uri@,
                timestamp,
                user: user@,
            }),
    {
        Image { id: None, filename, uri, timestamp, user }
    }

    /// The record as it is handed to the store for insertion: whatever
    /// identifier it carried is dropped, since the store assigns one.
    pub fn without_id(self) -> (doc: Image)
        ensures
            doc@ == (ImageView {
                id: None,
                filename: self@.filename,
                uri: self@.uri,
                timestamp: self@.timestamp,
                user: self@.user,
            }),
    {
        Image {
            id: None,
            filename: self.filename,
            uri: self.uri,
            timestamp: self.timestamp,
            user: self.user,
        }
    }
}

} // verus!
