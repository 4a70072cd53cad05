//! The virtuality classifier: scores one device record as real or virtual
//! through three layered blacklist rules, flagging on the first layer that
//! matches and defaulting to real when none does.

use vstd::prelude::*;

use crate::device::CameraDevice;
use crate::text::contains_seq;
use crate::text::contains_sub;
use crate::text::lower_of;
use crate::text::lowercase;
use crate::text::str_eq;

verus! {

/// The case-folded view of an optional string; absent fields contribute
/// nothing to the haystack.
pub open spec fn lower_opt(o: Option<String>) -> Seq<char> {
    match o {
        Some(s) => lower_of(s@),
        None => Seq::<char>::empty(),
    }
}

/// The haystack the name layer searches: the case-folded `name`,
/// `manufacturer`, `driver` and `device_path`, concatenated in that order
/// with no separators.
pub open spec fn haystack_of(d: CameraDevice) -> Seq<char> {
    lower_of(d.name@) + lower_opt(d.manufacturer) + lower_opt(d.driver) + lower_opt(d.device_path)
}

/// The name layer: the haystack contains a known virtual-camera product
/// name or substring.
pub open spec fn name_layer_matches(d: CameraDevice) -> bool {
    ||| contains_seq(haystack_of(d), "virtual"@)
    ||| contains_seq(haystack_of(d), "obs"@)
    ||| contains_seq(haystack_of(d), "manycam"@)
    ||| contains_seq(haystack_of(d), "snap camera"@)
    ||| contains_seq(haystack_of(d), "xsplit"@)
    ||| contains_seq(haystack_of(d), "mmhmm"@)
    ||| contains_seq(haystack_of(d), "droidcam"@)
    ||| contains_seq(haystack_of(d), "iriun"@)
    ||| contains_seq(haystack_of(d), "contacam"@)
    ||| contains_seq(haystack_of(d), "streamlabs"@)
    ||| contains_seq(haystack_of(d), "camsip"@)
}

/// The class-identifier layer: the case-folded class identifier, when
/// present, contains a known-virtual filter class identifier.
pub open spec fn clsid_layer_matches(d: CameraDevice) -> bool {
    match d.clsid {
        Some(c) => {
            ||| contains_seq(lower_of(c@), "{860bb310-5d01-11d0-bd3b-00a0c911ce86}"@)
            ||| contains_seq(lower_of(c@), "{e5323777-f976-4f5b-9b55-b94699c46e44}"@)
        },
        None => false,
    }
}

/// The case-folded `(vendor_id, product_id)` pair is exactly one of the
/// known virtual-camera hardware identifier pairs.
pub open spec fn pair_in_blacklist(v: Seq<char>, p: Seq<char>) -> bool {
    ||| (v == "0bda"@ && p == "58f4"@)
    ||| (v == "0c45"@ && p == "6366"@)
    ||| (v == "2b7e"@ && p == "f13a"@)
    ||| (v == "05a3"@ && p == "9331"@)
}

/// The hardware-identity layer: both ids present and, case-folded, an exact
/// pair match against the blacklist. A vendor id matching alone is not
/// sufficient.
pub open spec fn hw_layer_matches(d: CameraDevice) -> bool {
    match (d.vid, d.pid) {
        (Some(v), Some(p)) => pair_in_blacklist(lower_of(v@), lower_of(p@)),
        _ => false,
    }
}

/// One device record is classified virtual when any of the three layers
/// matches; with no match it counts as real by default.
pub open spec fn is_virtual_spec(d: CameraDevice) -> bool {
    ||| name_layer_matches(d)
    ||| clsid_layer_matches(d)
    ||| hw_layer_matches(d)
}

/// Classifies one device record as virtual (`true`) or real (`false`).
/// Pure: the verdict depends on the record alone.
pub fn is_virtual_camera(device: &CameraDevice) -> (r: bool)
    ensures
        r == is_virtual_spec(*device),
{
    let mut haystack = lowercase(device.name.as_str());
    if let Some(value) = &device.manufacturer {
        let lowered = lowercase(value.as_str());
        haystack.append(lowered.as_str());
    }
    if let Some(value) = &device.driver {
        let lowered = lowercase(value.as_str());
        haystack.append(lowered.as_str());
    }
    if let Some(value) = &device.device_path {
        let lowered = lowercase(value.as_str());
        haystack.append(lowered.as_str());
    }
    assert(haystack@ =~= haystack_of(*device));

    proof {
        reveal_strlit("virtual");
        reveal_strlit("obs");
        reveal_strlit("manycam");
        reveal_strlit("snap camera");
        reveal_strlit("xsplit");
        reveal_strlit("mmhmm");
        reveal_strlit("droidcam");
        reveal_strlit("iriun");
        reveal_strlit("contacam");
        reveal_strlit("streamlabs");
        reveal_strlit("camsip");
    }
    let name_hit = contains_sub(haystack.as_str(), "virtual")
        || contains_sub(haystack.as_str(), "obs")
        || contains_sub(haystack.as_str(), "manycam")
        || contains_sub(haystack.as_str(), "snap camera")
        || contains_sub(haystack.as_str(), "xsplit")
        || contains_sub(haystack.as_str(), "mmhmm")
        || contains_sub(haystack.as_str(), "droidcam")
        || contains_sub(haystack.as_str(), "iriun")
        || contains_sub(haystack.as_str(), "contacam")
        || contains_sub(haystack.as_str(), "streamlabs")
        || contains_sub(haystack.as_str(), "camsip");
    if name_hit {
        return true;
    }

    if let Some(clsid) = &device.clsid {
        proof {
            reveal_strlit("{860bb310-5d01-11d0-bd3b-00a0c911ce86}");
            reveal_strlit("{e5323777-f976-4f5b-9b55-b94699c46e44}");
        }
        let clsid_lower = lowercase(clsid.as_str());
        if contains_sub(clsid_lower.as_str(), "{860bb310-5d01-11d0-bd3b-00a0c911ce86}")
            || contains_sub(clsid_lower.as_str(), "{e5323777-f976-4f5b-9b55-b94699c46e44}")
        {
            return true;
        }
    }

    if let (Some(vid), Some(pid)) = (&device.vid, &device.pid) {
        let vid_lower = lowercase(vid.as_str());
        let pid_lower = lowercase(pid.as_str());
        if (str_eq(vid_lower.as_str(), "0bda") && str_eq(pid_lower.as_str(), "58f4"))
            || (str_eq(vid_lower.as_str(), "0c45") && str_eq(pid_lower.as_str(), "6366"))
            || (str_eq(vid_lower.as_str(), "2b7e") && str_eq(pid_lower.as_str(), "f13a"))
            || (str_eq(vid_lower.as_str(), "05a3") && str_eq(pid_lower.as_str(), "9331"))
        {
            return true;
        }
    }

    false
}

} // verus!
