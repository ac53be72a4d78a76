use vstd::prelude::*;

verus! {

/// Metadata of one remote object, as the storage collaborator reports it.
/// The timestamp is carried as its rendered text: the core never computes
/// with it.
#[derive(Clone, Debug, PartialEq)]
pub struct FileDetail {
    pub name: String,
    pub size_byte: usize,
    pub last_modified: String,
    pub e_tag: String,
    pub content_type: String,
    pub storage_class: String,
    pub key: String,
    pub s3_uri: String,
    pub arn: String,
    pub object_url: String,
}

/// One entry of an object's version history.
#[derive(Clone, Debug, PartialEq)]
pub struct FileVersion {
    pub version_id: String,
    pub size_byte: usize,
    pub last_modified: String,
    pub is_latest: bool,
}

/// An object's byte payload together with its declared content type.
#[derive(Clone, Debug, PartialEq)]
pub struct Object {
    pub content_type: String,
    pub bytes: Vec<u8>,
}

/// One row of a bucket listing.
#[derive(Clone, Debug, PartialEq)]
pub struct BucketItem {
    pub name: String,
}

/// One row of an object listing: a common prefix (directory) or an object.
#[derive(Clone, Debug, PartialEq)]
pub enum ObjectItem {
    Dir { name: String, key: String },
    File { name: String, size_byte: usize, key: String },
}

/// A listing row as carried by completion events.
#[derive(Clone, Debug, PartialEq)]
pub struct Item {
    pub name: String,
    pub size_byte: usize,
    pub key: String,
}

} // verus!
