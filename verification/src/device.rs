//! The data model: one record per reported capture device, and the
//! three-valued detection verdict.

use vstd::prelude::*;

verus! {

/// One camera-class capture device as reported by an enumeration backend.
///
/// Every field except `name` is optional: a backend leaves absent whatever
/// the platform did not supply. `vid` and `pid` are derived together from
/// `device_path` and are four characters each when present. Records are
/// immutable once built and preserve the original casing of every string;
/// the classifier folds case itself.
#[derive(Debug, Clone)]
pub struct CameraDevice {
    pub name: String,
    pub manufacturer: Option<String>,
    pub device_path: Option<String>,
    pub driver: Option<String>,
    pub vid: Option<String>,
    pub pid: Option<String>,
    pub clsid: Option<String>,
}

/// The system-level outcome of one detection run.
#[derive(Debug, Clone, Copy, PartialEq, Eq, Structural)]
pub enum DetectionResult {
    RealCamera,
    VirtualCamera,
    NoCamera,
}

} // verus!
