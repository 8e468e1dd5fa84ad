//! GPU acceleration. No GPU backend is built in: the accelerator reports
//! itself unavailable and describes no adapter.

use vstd::prelude::*;
use crate::text::owned;

verus! {

/// A GPU accelerator.
#[derive(Debug)]
pub struct GpuAccelerator {
    available: bool,
}

/// What is known of the GPU.
#[derive(Debug, Clone)]
pub struct GpuPerformanceInfo {
    pub adapter_name: String,
    pub backend: String,
    pub device_type: String,
    pub max_compute_workgroups_x: u32,
    pub max_compute_workgroups_y: u32,
    pub max_compute_workgroups_z: u32,
}

/// The error type of creating an accelerator; creation never fails.
#[derive(Debug, Clone, Copy, PartialEq, Eq, Structural)]
pub enum GpuError {
    Unavailable,
}

impl GpuAccelerator {
    /// Whether this accelerator can run work.
    pub closed spec fn spec_available(&self) -> bool {
        self.available
    }

    /// An accelerator, always created, never available.
    pub fn new() -> (res: Result<Self, GpuError>)
        ensures
            res matches Ok(g) && !g.spec_available(),
    {
        Ok(GpuAccelerator { available: false })
    }

    /// Whether a GPU can be used: never.
    pub fn is_available() -> (res: bool)
        ensures
            !res,
    {
        false
    }

    /// The GPU description: "N/A" names and no work groups.
    pub fn get_performance_info(&self) -> (res: GpuPerformanceInfo)
        ensures
            res.adapter_name@ == "N/A"@,
            res.backend@ == "N/A"@,
            res.device_type@ == "N/A"@,
            res.max_compute_workgroups_x == 0,
            res.max_compute_workgroups_y == 0,
            res.max_compute_workgroups_z == 0,
    {
        GpuPerformanceInfo {
            adapter_name: owned("N/A"),
            backend: owned("N/A"),
            device_type: owned("N/A"),
            max_compute_workgroups_x: 0,
            max_compute_workgroups_y: 0,
            max_compute_workgroups_z: 0,
        }
    }
}

} // verus!
