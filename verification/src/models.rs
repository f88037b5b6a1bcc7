//! Plain data carried between the webview script context and the native
//! share facility.

use vstd::prelude::*;

verus! {

/// A request to the native share facility: an optional file path, MIME type
/// and sharing group.
#[derive(Debug)]
pub struct ShareRequest {
    pub path: Option<String>,
    pub mime: Option<String>,
    pub group: Option<String>,
}

/// One shared file as the host hands it back: name, size in bytes, MIME
/// type and raw contents.
#[derive(Debug, Clone)]
pub struct FileInfo {
    pub name: String,
    pub size: usize,
    pub mime: String,
    pub data: Vec<u8>,
}

/// The host's answer to a share request: a scalar value, the shared files,
/// or their paths; fields the host did not fill stay `None`.
#[derive(Debug, Clone)]
pub struct ShareResponse {
    pub value: Option<String>,
    pub files: Option<Vec<FileInfo>>,
    pub paths: Option<Vec<String>>,
}

impl Default for FileInfo {
    /// An empty file: no name, no contents, size zero.
    fn default() -> (r: Self)
        ensures
            r.name@ == Seq::<char>::empty(),
            r.size == 0,
            r.mime@ == Seq::<char>::empty(),
            r.data@ == Seq::<u8>::empty(),
    {
        FileInfo { name: String::new(), size: 0, mime: String::new(), data: Vec::new() }
    }
}

impl Default for ShareResponse {
    /// A response with nothing filled in.
    fn default() -> (r: Self)
        ensures
            r.value is None,
            r.files is None,
            r.paths is None,
    {
        ShareResponse { value: None, files: None, paths: None }
    }
}

} // verus!
