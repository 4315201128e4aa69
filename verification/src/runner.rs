//! A reduced entry point that only offers the duplicate-frame-bulk merge.

use vstd::prelude::*;

use crate::cleaners::{merged, no_dupe_framebulks, overflow_at, CleanerError};
use crate::types::{doc_view, Line};

verus! {

/// Configuration for the reduced runner: the file paths the caller uses and
/// whether to merge duplicate frame bulks.
#[derive(Debug)]
pub struct Config {
    pub file_path: String,
    pub output_path: String,
    pub remove_dupe_framebulks: bool,
}

/// Runs the merge engine if the configuration asks for it.
pub fn run(config: Config, lines: &mut Vec<Line>) -> (r: Result<(), CleanerError>)
    ensures
        match r {
            Ok(_) => {
                &&& doc_view(final(lines)@) == (if config.remove_dupe_framebulks {
                    merged(doc_view(old(lines)@))
                } else {
                    doc_view(old(lines)@)
                })
                &&& config.remove_dupe_framebulks ==> forall|i: int|
                    !overflow_at(doc_view(old(lines)@), i)
            },
            Err(e) => {
                &&& config.remove_dupe_framebulks
                &&& final(lines)@ == old(lines)@
                &&& e matches CleanerError::CountOverflow { index }
                &&& overflow_at(doc_view(old(lines)@), index as int)
                &&& forall|j: int| j < index as int ==> !overflow_at(doc_view(old(lines)@), j)
            },
        },
{
    if config.remove_dupe_framebulks {
        match no_dupe_framebulks(lines) {
            Ok(_) => {},
            Err(e) => {
                return Err(e);
            },
        }
    }
    Ok(())
}

} // verus!
