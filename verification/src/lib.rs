//! Cleaning passes for scripts of per-frame input instructions.
//!
//! A script document is an ordered sequence of typed lines ([`types::Line`]):
//! frame bulks carrying movement settings and a duration, comment lines,
//! angle-bearing directive lines, and opaque other lines. Parsing the textual
//! script format into this model and serializing it back are the caller's
//! concern; the passes here rewrite the in-memory sequence and report which
//! lines they changed or removed.

pub mod angles;
pub mod cleaners;
pub mod laws;
pub mod runner;
pub mod types;

pub use angles::{apply_angles, collect_angles};
pub use cleaners::{no_dupe_framebulks, remove_comments, CleanerError, CleanerResult};

use cleaners::{merged, overflow_at, stripped};
use types::{doc_view, Line, LineView};
use vstd::prelude::*;

verus! {

/// Configuration on which cleaners to run, with the file paths the caller
/// reads the document from and writes it back to. The paths are carried for
/// the caller's benefit; the passes themselves never touch a file.
#[derive(Debug)]
pub struct Config {
    pub input_path: String,
    pub output_path: String,
    pub remove_dupe_framebulks: bool,
    pub remove_comments: bool,
}

/// The document after the passes a configuration selects: first the merge
/// engine, then the comment stripper.
pub open spec fn cleaned(dupes: bool, comments: bool, s: Seq<LineView>) -> Seq<LineView> {
    let s1 = if dupes {
        merged(s)
    } else {
        s
    };
    if comments {
        stripped(s1)
    } else {
        s1
    }
}

/// Runs through cleaning utilities with the given arguments.
///
/// Applies the merge engine and then the comment stripper, each only if its
/// flag is set in `config`. A frame-count overflow in the merge engine aborts
/// the call with the document unchanged.
pub fn run(config: Config, lines: &mut Vec<Line>) -> (r: Result<(), CleanerError>)
    ensures
        match r {
            Ok(_) => {
                &&& doc_view(final(lines)@) == cleaned(
                    config.remove_dupe_framebulks,
                    config.remove_comments,
                    doc_view(old(lines)@),
                )
                &&& config.remove_dupe_framebulks ==> forall|i: int|
                    !overflow_at(doc_view(old(lines)@), i)
            },
            Err(e) => {
                &&& config.remove_dupe_framebulks
                &&& final(lines)@ == old(lines)@
                &&& e matches CleanerError::CountOverflow { index }
                &&& overflow_at(doc_view(old(lines)@), index as int)
                &&& forall|j: int| j < index as int ==> !overflow_at(doc_view(old(lines)@), j)
            },
        },
{
    if config.remove_dupe_framebulks {
        match no_dupe_framebulks(lines) {
            Ok(_) => {},
            Err(e) => {
                return Err(e);
            },
        }
    }
    if config.remove_comments {
        remove_comments(lines);
    }
    Ok(())
}

} // verus!
