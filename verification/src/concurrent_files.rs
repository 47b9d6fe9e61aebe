//! Rules for walking directories and sharing the work.

use vstd::prelude::*;
use vstd::string::StringSliceAdditionalSpecFns;

verus! {

/// The number of workers for `num_jobs` jobs: one less, and at least one.
pub open spec fn workers(num_jobs: usize) -> usize {
    if num_jobs <= 2 {
        1
    } else {
        (num_jobs - 1) as usize
    }
}

/// Computes the number of workers that process files, one job being the
/// one that finds them.
pub fn worker_count(num_jobs: usize) -> (r: usize)
    ensures
        r == workers(num_jobs),
{
    if num_jobs <= 2 {
        1
    } else {
        num_jobs - 1
    }
}

/// Tells whether a file name marks a hidden file: it starts with a dot.
pub fn is_hidden(file_name: &str) -> (r: bool)
    ensures
        r == (file_name.spec_bytes().len() > 0 && file_name.spec_bytes()[0] == 46),
{
    let bytes = file_name.as_bytes();
    bytes.len() > 0 && bytes[0] == 46
}

} // verus!
