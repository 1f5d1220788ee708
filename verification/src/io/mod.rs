//! I/O support: the FFmpeg command builder, file status records, and the
//! capabilities of the kernel the library runs on.

use vstd::prelude::*;

pub mod subprocess;

pub use subprocess::FfmpegCommand;

verus! {

/// Metadata extracted by a `statx()` call.
#[derive(Debug, Clone, Copy, PartialEq, Eq, Structural)]
pub struct FileStat {
    /// File size in bytes.
    pub size_bytes: u64,
    /// Last modification time (seconds since Unix epoch).
    pub mtime_secs: i64,
    /// Nanoseconds component of mtime.
    pub mtime_nsecs: u32,
}

/// Whether `splice()` can be used: it needs Linux 2.6.17 or later, which
/// every supported kernel is.
pub fn splice_available() -> (b: bool)
    ensures
        b,
{
    true
}

} // verus!
