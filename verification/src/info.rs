//! What the library reports about itself: its version, the CPUs it runs on
//! and the features available.

use vstd::prelude::*;
use crate::thread_pool::{logical_cpu_count, physical_cpu_count};

verus! {

/// Library version.
pub const VERSION: &'static str = "1.0.0";

/// Library features.
#[derive(Debug, Clone, Copy, PartialEq, Eq, Structural)]
pub struct LibraryFeatures {
    pub avx512: bool,
    pub avx2: bool,
    pub sse41: bool,
    pub fma: bool,
    pub http_server: bool,
}

/// Library information.
#[derive(Debug, Clone)]
pub struct LibraryInfo {
    pub version: String,
    pub cpu_cores: usize,
    pub physical_cores: usize,
    pub features: LibraryFeatures,
}

/// The library's information, with the CPU `features` detected by the
/// caller: the version, and the logical and physical core counts (each at
/// least one).
pub fn library_info(features: LibraryFeatures) -> (info: LibraryInfo)
    ensures
        info.version@ == VERSION@,
        info.cpu_cores >= 1,
        info.physical_cores >= 1,
        info.features == features,
{
    LibraryInfo {
        version: String::from_str(VERSION),
        cpu_cores: logical_cpu_count(),
        physical_cores: physical_cpu_count(),
        features,
    }
}

} // verus!
