use camera_detect::detect_cameras;
use camera_detect::detect_from_inventory;
use camera_detect::enumerate_devices;
use camera_detect::is_virtual_camera;
use camera_detect::CameraDevice;
use camera_detect::DetectionResult;

fn record(name: &str) -> CameraDevice {
    CameraDevice {
        name: name.to_string(),
        manufacturer: None,
        device_path: None,
        driver: None,
        vid: None,
        pid: None,
        clsid: None,
    }
}

#[test]
fn no_backends_no_camera() {
    assert_eq!(detect_cameras(Vec::new()), DetectionResult::NoCamera);
}

#[test]
fn empty_backends_no_camera() {
    assert_eq!(
        detect_cameras(vec![Vec::new(), Vec::new()]),
        DetectionResult::NoCamera
    );
}

#[test]
fn empty_inventory_no_camera() {
    assert_eq!(
        detect_from_inventory(&Vec::new()),
        DetectionResult::NoCamera
    );
}

#[test]
fn single_real_camera() {
    let mut device = record("Logitech BRIO");
    device.vid = Some("046d".to_string());
    device.pid = Some("085e".to_string());
    assert_eq!(
        detect_cameras(vec![vec![device]]),
        DetectionResult::RealCamera
    );
}

#[test]
fn real_dominates_virtual() {
    let mut real = record("Logitech BRIO");
    real.vid = Some("046d".to_string());
    real.pid = Some("085e".to_string());
    let fake = record("OBS Virtual Camera");
    assert_eq!(
        detect_cameras(vec![vec![real], vec![fake]]),
        DetectionResult::RealCamera
    );
}

#[test]
fn only_virtual_camera() {
    let fake = record("OBS Virtual Camera");
    assert_eq!(
        detect_cameras(vec![vec![fake]]),
        DetectionResult::VirtualCamera
    );
}

#[test]
fn classifier_is_case_insensitive() {
    let upper = record("OBS Virtual Camera");
    let lower = record("obs virtual camera");
    assert!(is_virtual_camera(&upper));
    assert!(is_virtual_camera(&lower));
}

#[test]
fn name_substring_containment() {
    let device = record("My ManyCam Device");
    assert!(is_virtual_camera(&device));
}

#[test]
fn plain_hardware_name_is_real() {
    let device = record("Integrated Webcam");
    assert!(!is_virtual_camera(&device));
}

#[test]
fn manufacturer_joins_the_haystack() {
    let mut device = record("USB Video Device");
    device.manufacturer = Some("ManyCam LLC".to_string());
    assert!(is_virtual_camera(&device));
}

#[test]
fn driver_joins_the_haystack() {
    let mut device = record("USB Video Device");
    device.driver = Some("droidcam.sys".to_string());
    assert!(is_virtual_camera(&device));
}

#[test]
fn device_path_joins_the_haystack() {
    let mut device = record("USB Video Device");
    device.device_path = Some("\\\\?\\root#media#0000#{obs-virtualcam}".to_string());
    assert!(is_virtual_camera(&device));
}

#[test]
fn clsid_blacklist_matches_case_folded() {
    let mut device = record("Capture Filter");
    device.clsid = Some("{E5323777-F976-4F5B-9B55-B94699C46E44}".to_string());
    assert!(is_virtual_camera(&device));
}

#[test]
fn absent_clsid_is_no_evidence() {
    let device = record("Capture Filter");
    assert!(!is_virtual_camera(&device));
}

#[test]
fn hardware_pair_exact_match() {
    let mut device = record("USB Composite Device");
    device.vid = Some("0bda".to_string());
    device.pid = Some("58f4".to_string());
    assert!(is_virtual_camera(&device));
}

#[test]
fn hardware_pair_is_folded() {
    let mut device = record("USB Composite Device");
    device.vid = Some("0BDA".to_string());
    device.pid = Some("58F4".to_string());
    assert!(is_virtual_camera(&device));
}

#[test]
fn vendor_alone_is_not_sufficient() {
    let mut device = record("USB Composite Device");
    device.vid = Some("0bda".to_string());
    device.pid = Some("0000".to_string());
    assert!(!is_virtual_camera(&device));
}

#[test]
fn merger_keeps_backend_order() {
    let d1 = record("First");
    let d2 = record("Second");
    let d3 = record("Third");
    let merged = enumerate_devices(vec![vec![d1, d2], vec![d3]]);
    let names: Vec<&str> = merged.iter().map(|d| d.name.as_str()).collect();
    assert_eq!(names, vec!["First", "Second", "Third"]);
}

#[test]
fn merger_skips_nothing_on_empty_backend() {
    let d1 = record("First");
    let d2 = record("Second");
    let merged = enumerate_devices(vec![Vec::new(), vec![d1], Vec::new(), vec![d2]]);
    let names: Vec<&str> = merged.iter().map(|d| d.name.as_str()).collect();
    assert_eq!(names, vec!["First", "Second"]);
}

#[test]
fn all_virtual_across_backends() {
    let a = record("Streamlabs Desktop Virtual Webcam");
    let b = record("XSplit VCam");
    assert_eq!(
        detect_cameras(vec![vec![a], vec![b]]),
        DetectionResult::VirtualCamera
    );
}
