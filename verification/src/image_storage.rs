use crate::tokens::{is_v4_token, random_uuid_string};
use vstd::prelude::*;

verus! {

/// Where uploaded images are kept: files named by fresh random tokens under `root`.
pub struct ImageStorage {
    pub root: String,
}

/// Why an image could not be stored.
#[derive(Debug)]
pub enum SaveImageError {
    /// Writing the file failed; the I/O error's description.
    WriteFileError(String),
}

impl ImageStorage {
    /// The name under which the next image is saved: a fresh random UUID in its
    /// hyphenated lowercase form; the file itself is written by the caller.
    pub fn next_file_name(&self) -> (name: String)
        ensures
            is_v4_token(name@),
    {
        random_uuid_string()
    }
}

} // verus!
