//! Corrected loop-device listing for processes whose mount namespace differs
//! from the one in which the loop devices were attached.
//!
//! The kernel records a loop device's backing file under the path that was
//! visible to whoever attached it. Inside a container that path may be wrong:
//! bind mounts can expose the same file somewhere else, or nowhere at all.
//! This library holds the logic that corrects the listing: it generates an
//! ordered list of candidate paths from the kernel's two reports and a
//! configured list of alternate roots, and selects the first candidate whose
//! probed inode equals the device's recorded backing inode, falling back to
//! the sysfs-rooted path when none matches.
//!
//! All filesystem, environment and process access stays outside this crate;
//! callers hand in plain byte values (paths are byte strings on Unix) and the
//! probed inode of each candidate, and receive byte values back.

pub mod bytes;
pub mod candidates;
pub mod config;
pub mod gate;
pub mod listing;
pub mod resolver;
pub mod status;
pub mod sysfs;
