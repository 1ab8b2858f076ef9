//! What the recording operations decide; the host application's calls
//! themselves are made by its plugin glue.

use vstd::prelude::*;

verus! {

/// How a recording was started, so that the file name format can be put
/// back when it stops.
pub enum RecordingState {
    /// Started with the profile's own file name format.
    Regular,
    /// Started with a custom format; holds the format it replaced.
    CustomName(String),
}

impl RecordingState {
    /// The file name format to put back once the recording stops: the one
    /// saved when a custom format was set, none otherwise.
    pub fn name_to_restore(&self) -> (r: Option<String>)
        ensures
            match self {
                RecordingState::Regular => r is None,
                RecordingState::CustomName(saved) => r matches Some(n) && n@ == saved@,
            },
    {
        match self {
            RecordingState::Regular => None,
            RecordingState::CustomName(saved) => Some(saved.clone()),
        }
    }
}

/// The answer to a stop request.
pub struct StopResponse {
    /// Where the recording was written, where the output reported a path.
    pub path: Option<String>,
}

impl StopResponse {
    /// The answer for the path that the recording output reported: an empty
    /// path counts as none.
    pub fn from_output_path(path: Option<String>) -> (r: StopResponse)
        ensures
            match path {
                Some(p) => if p@.len() == 0 {
                    r.path is None
                } else {
                    r.path matches Some(q) && q@ == p@
                },
                None => r.path is None,
            },
    {
        match path {
            Some(p) => if p.as_str().is_empty() {
                StopResponse { path: None }
            } else {
                StopResponse { path: Some(p) }
            },
            None => StopResponse { path: None },
        }
    }
}

} // verus!
