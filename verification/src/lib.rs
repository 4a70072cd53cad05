//! Camera presence and virtual-camera detection.
//!
//! The crate classifies an inventory of camera-class capture devices, as
//! reported by OS-specific enumeration backends, into one of three verdicts:
//! a real hardware camera is present, only software-emulated (virtual)
//! cameras are present, or no camera is present at all.

mod classify;
mod detect;
mod device;
mod extract;
mod text;

pub use classify::is_virtual_camera;
pub use detect::detect_cameras;
pub use detect::detect_from_inventory;
pub use detect::enumerate_devices;
pub use device::CameraDevice;
pub use device::DetectionResult;
pub use extract::extract_segment;
pub use extract::parse_vid_pid;
