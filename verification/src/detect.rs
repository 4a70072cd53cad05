//! The device merger and the aggregator: backend outputs are concatenated
//! in order into one inventory, every record is classified, and the
//! per-record verdicts reduce to one three-valued outcome.

use vstd::prelude::*;

use crate::classify::is_virtual_camera;
use crate::classify::is_virtual_spec;
use crate::device::CameraDevice;
use crate::device::DetectionResult;

verus! {

/// The inventory that merging a sequence of backend outputs yields: all
/// records of the first output, then all of the second, and so on, each
/// output's internal order preserved.
pub open spec fn merged(outputs: Seq<Vec<CameraDevice>>) -> Seq<CameraDevice>
    decreases outputs.len(),
{
    if outputs.len() == 0 {
        Seq::<CameraDevice>::empty()
    } else {
        outputs[0]@ + merged(outputs.drop_first())
    }
}

/// At least one record of the inventory is classified real.
pub open spec fn any_real(devs: Seq<CameraDevice>) -> bool {
    exists|i: int| #![trigger devs[i]] 0 <= i < devs.len() && !is_virtual_spec(devs[i])
}

/// At least one record of the inventory is classified virtual.
pub open spec fn any_virtual(devs: Seq<CameraDevice>) -> bool {
    exists|i: int| #![trigger devs[i]] 0 <= i < devs.len() && is_virtual_spec(devs[i])
}

/// The verdict an inventory reduces to: no records means no camera; any
/// real record wins over any number of virtual ones; otherwise virtual.
pub open spec fn verdict_of(devs: Seq<CameraDevice>) -> DetectionResult {
    if devs.len() == 0 {
        DetectionResult::NoCamera
    } else if any_real(devs) {
        DetectionResult::RealCamera
    } else if any_virtual(devs) {
        DetectionResult::VirtualCamera
    } else {
        DetectionResult::NoCamera
    }
}

/// Merges backend outputs into one inventory by concatenation alone: no
/// deduplication, no reordering. A failed backend is represented by the
/// empty output it handed in.
pub fn enumerate_devices(backend_outputs: Vec<Vec<CameraDevice>>) -> (r: Vec<CameraDevice>)
    ensures
        r@ == merged(backend_outputs@),
{
    let ghost orig: Seq<Vec<CameraDevice>> = backend_outputs@;
    let mut outputs = backend_outputs;
    let mut devices: Vec<CameraDevice> = Vec::new();
    assert(devices@ + merged(outputs@) =~= merged(orig));
    while outputs.len() > 0
        invariant
            devices@ + merged(outputs@) == merged(orig),
        decreases outputs.len(),
    {
        let ghost before: Seq<Vec<CameraDevice>> = outputs@;
        let mut first = outputs.remove(0);
        assert(outputs@ =~= before.drop_first());
        devices.append(&mut first);
        assert(devices@ + merged(outputs@) =~= merged(orig));
    }
    assert(devices@ =~= merged(orig));
    devices
}

/// Aggregates one inventory: classifies each record and reduces the
/// per-record verdicts, with a real record winning over any number of
/// virtual ones.
pub fn detect_from_inventory(devices: &Vec<CameraDevice>) -> (r: DetectionResult)
    ensures
        r == verdict_of(devices@),
{
    if devices.is_empty() {
        return DetectionResult::NoCamera;
    }

    let n: usize = devices.len();
    let mut has_real = false;
    let mut has_virtual = false;
    let mut idx: usize = 0;
    while idx < n
        invariant
            n == devices@.len(),
            0 <= idx <= n,
            has_real == (exists|j: int| #![trigger devices@[j]] 0 <= j < idx && !is_virtual_spec(devices@[j])),
            has_virtual == (exists|j: int| #![trigger devices@[j]] 0 <= j < idx && is_virtual_spec(devices@[j])),
        decreases n - idx,
    {
        let device = &devices[idx];
        if is_virtual_camera(device) {
            has_virtual = true;
            assert(0 <= idx < devices@.len() && is_virtual_spec(devices@[idx as int]));
        } else {
            has_real = true;
            assert(0 <= idx < devices@.len() && !is_virtual_spec(devices@[idx as int]));
        }
        idx = idx + 1;
    }

    if has_real {
        DetectionResult::RealCamera
    } else if has_virtual {
        DetectionResult::VirtualCamera
    } else {
        DetectionResult::NoCamera
    }
}

/// Runs one detection pass over the given backend outputs: merge them into
/// one inventory, classify every record, aggregate. Total: every input
/// yields exactly one verdict.
pub fn detect_cameras(backend_outputs: Vec<Vec<CameraDevice>>) -> (r: DetectionResult)
    ensures
        r == verdict_of(merged(backend_outputs@)),
{
    let devices = enumerate_devices(backend_outputs);
    detect_from_inventory(&devices)
}

/// Totality: every inventory reduces to exactly one of the three verdicts.
pub proof fn lemma_verdict_total(devs: Seq<CameraDevice>)
    ensures
        verdict_of(devs) == DetectionResult::NoCamera
        || verdict_of(devs) == DetectionResult::RealCamera
        || verdict_of(devs) == DetectionResult::VirtualCamera,
{
}

/// Empty-inventory law: an empty inventory reduces to `NoCamera`.
pub proof fn lemma_empty_inventory(devs: Seq<CameraDevice>)
    requires
        devs.len() == 0,
    ensures
        verdict_of(devs) == DetectionResult::NoCamera,
{
}

/// Real-dominance law: an inventory with at least one record classified
/// real reduces to `RealCamera`, however many virtual records it also
/// holds.
pub proof fn lemma_real_dominance(devs: Seq<CameraDevice>)
    requires
        any_real(devs),
    ensures
        verdict_of(devs) == DetectionResult::RealCamera,
{
    let i = choose|i: int| #![trigger devs[i]] 0 <= i < devs.len() && !is_virtual_spec(devs[i]);
    assert(devs.len() > 0);
}

/// All-virtual law: a non-empty inventory whose every record is classified
/// virtual reduces to `VirtualCamera`.
pub proof fn lemma_all_virtual(devs: Seq<CameraDevice>)
    requires
        devs.len() > 0,
        forall|i: int| #![trigger devs[i]] 0 <= i < devs.len() ==> is_virtual_spec(devs[i]),
    ensures
        verdict_of(devs) == DetectionResult::VirtualCamera,
{
    assert(!any_real(devs));
    assert(0 <= 0 < devs.len() && is_virtual_spec(devs[0]));
}

} // verus!
