//! What a session that succeeded hands back.

use vstd::prelude::*;

verus! {

/// The result of a recording session.
#[derive(Debug)]
pub struct VideoRes {
    /// Where the recording was written.
    pub output_file_path: String,
}

} // verus!
