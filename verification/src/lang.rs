//! The texts of the user interface in the language chosen at build time.
use vstd::prelude::*;

verus! {

/// Every text the interface shows.
#[derive(Debug)]
pub struct Dialogs {
    pub ask: Ask,
    pub info: MemsosInfo,
    pub memtest_info: MemtestInfo,
    pub mem_info: MemInfo,
    pub cpu_info: CpuInfo,
    pub debug_info: MemTestDebug,
}

/// The question for the kind of test, and the names of the two kinds.
#[derive(Debug)]
pub struct Ask {
    pub test_kind: String,
    pub advanced: String,
    pub basic: String,
}

#[derive(Debug)]
pub struct MemsosInfo {
    pub bootloader_version: String,
    pub love_message: String,
}

#[derive(Debug)]
pub struct MemtestInfo {
    pub info: String,
    pub actual_tests: String,
    pub kind_test: String,
}

#[derive(Debug)]
pub struct MemInfo {
    pub info: String,
    pub size: String,
}

#[derive(Debug)]
pub struct CpuInfo {
    pub info: String,
    pub model: String,
    pub vendor: String,
    pub family: String,
    pub stepping: String,
}

#[derive(Debug)]
pub struct MemTestDebug {
    pub checking: String,
    pub omitting: String,
}

} // verus!
