//! Interpretation of the per-device sysfs backing-file content.
//!
//! The kernel publishes the backing path as a single line: one leading `/`,
//! the path, one trailing newline. Exactly one leading and one trailing byte
//! are stripped — no general whitespace trimming. Content shorter than two
//! bytes cannot carry that shape and is rejected rather than sliced out of
//! bounds.

use vstd::prelude::*;

use crate::bytes::copy_range;

verus! {

/// Why sysfs backing-file content could not be interpreted.
#[derive(Debug)]
pub enum SysfsError {
    /// The content is shorter than the one leading and one trailing byte
    /// that the kernel's single-line format guarantees.
    TooShort,
}

impl SysfsError {
    /// A short description of the failure, for diagnostics.
    pub fn describe(&self) -> (r: &'static str)
        ensures
            r@ == "backing_file content shorter than two bytes"@,
    {
        "backing_file content shorter than two bytes"
    }
}

/// Strips the one leading byte and the one trailing byte from sysfs
/// backing-file content, returning the path between them; content shorter
/// than two bytes is rejected.
pub fn parse_sysfs_content(raw: &Vec<u8>) -> (r: Result<Vec<u8>, SysfsError>)
    ensures
        raw@.len() >= 2 ==> (r matches Ok(tail) && tail@ == raw@.subrange(1, raw@.len() - 1)),
        raw@.len() < 2 ==> (r matches Err(e) && e is TooShort),
{
    if raw.len() < 2 {
        Err(SysfsError::TooShort)
    } else {
        Ok(copy_range(raw, 1, raw.len() - 1))
    }
}

} // verus!
