//! The kernel's view of a loop device's attachment: a fixed-width,
//! NUL-terminated backing-file name and the backing file's inode number.
//!
//! The privileged status query itself is issued by the caller against the
//! device node; this module interprets the fixed-width name field it returns
//! and words the failure diagnostic.

use vstd::prelude::*;

use crate::bytes::bytes_of;
use crate::bytes::copy_range;
use crate::bytes::first_byte;
use crate::bytes::lemma_first_byte_unique;

verus! {

/// Width in bytes of the fixed backing-file name field in the kernel's
/// status record.
pub const LO_NAME_SIZE: usize = 64;

/// The kernel's report for one attached loop device: the raw name field,
/// exactly as wide as the record's fixed name buffer, and the backing file's
/// inode number.
pub struct BackingStatus {
    pub raw_name: Vec<u8>,
    pub inode: u64,
}

impl BackingStatus {
    /// The raw name field has exactly the record's fixed width.
    pub open spec fn well_formed(&self) -> bool {
        self.raw_name@.len() == LO_NAME_SIZE
    }
}

/// Trims a raw name field at its first NUL byte; a field with no NUL is kept
/// whole, so a name that exactly fills the fixed width is accepted truncated
/// at that width.
pub fn trim_raw_name(buf: &Vec<u8>) -> (name: Vec<u8>)
    requires
        buf@.len() == LO_NAME_SIZE,
    ensures
        name@ == buf@.take(first_byte(buf@, 0u8)),
{
    let mut i: usize = 0;
    while i < buf.len() && buf[i] != 0
        invariant
            i <= buf@.len(),
            forall|j: int| 0 <= j < i ==> buf@[j] != 0u8,
        decreases buf@.len() - i,
    {
        i = i + 1;
    }
    proof {
        lemma_first_byte_unique(buf@, 0u8, i as int);
    }
    copy_range(buf, 0, i)
}

/// The text reported when the status query against a device node fails:
/// it names the device node and carries the operating system's error text.
pub open spec fn status_error_spec(dev_path: Seq<u8>, os_error: Seq<u8>) -> Seq<u8> {
    bytes_of("Failed to get status of '") + dev_path + bytes_of("': ") + os_error
}

/// Words the diagnostic for a failed status query.
pub fn status_error_text(dev_path: &Vec<u8>, os_error: &Vec<u8>) -> (r: Vec<u8>)
    ensures
        r@ == status_error_spec(dev_path@, os_error@),
{
    proof {
        reveal_strlit("Failed to get status of '");
        reveal_strlit("': ");
    }
    let mut r = crate::bytes::ascii_bytes("Failed to get status of '");
    crate::bytes::extend_bytes(&mut r, dev_path);
    let mid = crate::bytes::ascii_bytes("': ");
    crate::bytes::extend_bytes(&mut r, &mid);
    crate::bytes::extend_bytes(&mut r, os_error);
    r
}

} // verus!
