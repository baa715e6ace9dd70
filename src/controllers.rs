//! Parameters of the HTTP API.
use vstd::prelude::*;

verus! {

/// The query of a file upload: the file's name.
#[derive(Clone, Debug)]
pub struct UploadQuery {
    pub filename: String,
}

} // verus!
