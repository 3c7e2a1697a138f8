//! The string-attribute accessors: recorded attributes come back as
//! recorded, missing ones are a native error, and the support query
//! matches.

use realsense_core::error::ErrorKind;
use realsense_core::kind::{CameraInfo, ExtProfile};
use realsense_core::native::NativeLayer;
use realsense_core::sensor::{Any, Sensor};

#[test]
fn recorded_attributes_come_back_as_recorded() {
    let mut n = NativeLayer::new();
    let h = n.install_sensor(ExtProfile::empty(), 0);
    n.set_sensor_info(h, CameraInfo::Name, String::from("Stereo Module"));
    n.set_sensor_info(h, CameraInfo::SerialNumber, String::from("936322070610"));
    n.set_sensor_info(h, CameraInfo::ProductLine, String::from("D400"));
    let s = Sensor::<Any>::from_raw(h);
    assert_eq!(s.name(&n).unwrap(), "Stereo Module");
    assert_eq!(s.serial_number(&n).unwrap(), "936322070610");
    assert_eq!(s.product_line(&n).unwrap(), "D400");
    assert_eq!(s.info(&n, CameraInfo::Name).unwrap(), "Stereo Module");
}

#[test]
fn missing_attribute_is_a_native_error() {
    let mut n = NativeLayer::new();
    let h = n.install_sensor(ExtProfile::empty(), 0);
    let s = Sensor::<Any>::from_raw(h);
    let e = s.physical_port(&n).unwrap_err();
    assert_eq!(e.kind, ErrorKind::InvalidValue);
    assert_eq!(e.message, "unsupported sensor attribute");
}

#[test]
fn support_query_matches_the_recorded_table() {
    let mut n = NativeLayer::new();
    let h = n.install_sensor(ExtProfile::empty(), 0);
    n.set_sensor_info(h, CameraInfo::FirmwareUpdateId, String::from("fw-42"));
    let s = Sensor::<Any>::from_raw(h);
    assert!(s.is_info_supported(&n, CameraInfo::FirmwareUpdateId).unwrap());
    assert!(!s.is_info_supported(&n, CameraInfo::AdvancedMode).unwrap());
}

#[test]
fn newest_recorded_value_wins() {
    let mut n = NativeLayer::new();
    let h = n.install_sensor(ExtProfile::empty(), 0);
    n.set_sensor_info(h, CameraInfo::UsbTypeDescriptor, String::from("2.1"));
    n.set_sensor_info(h, CameraInfo::UsbTypeDescriptor, String::from("3.2"));
    let s = Sensor::<Any>::from_raw(h);
    assert_eq!(s.usb_type_descriptor(&n).unwrap(), "3.2");
}

#[test]
fn attributes_are_per_sensor() {
    let mut n = NativeLayer::new();
    let h1 = n.install_sensor(ExtProfile::empty(), 0);
    let h2 = n.install_sensor(ExtProfile::empty(), 0);
    n.set_sensor_info(h1, CameraInfo::Name, String::from("RGB Camera"));
    let s1 = Sensor::<Any>::from_raw(h1);
    let s2 = Sensor::<Any>::from_raw(h2);
    assert_eq!(s1.name(&n).unwrap(), "RGB Camera");
    assert!(s2.name(&n).is_err());
}

#[test]
fn injected_error_precedes_the_attribute_table() {
    let mut n = NativeLayer::new();
    let h = n.install_sensor(ExtProfile::empty(), 0);
    n.set_sensor_info(h, CameraInfo::Name, String::from("RGB Camera"));
    let s = Sensor::<Any>::from_raw(h);
    n.inject_error(ErrorKind::Backend, String::from("backend lost"));
    let e = s.name(&n).unwrap_err();
    assert_eq!(e.kind, ErrorKind::Backend);
    assert_eq!(e.message, "backend lost");
}

#[test]
fn remaining_accessors_forward_to_the_same_table() {
    let mut n = NativeLayer::new();
    let h = n.install_sensor(ExtProfile::empty(), 0);
    n.set_sensor_info(h, CameraInfo::RecommendedFirmwareVersion, String::from("5.13"));
    n.set_sensor_info(h, CameraInfo::DebugOpCode, String::from("15"));
    n.set_sensor_info(h, CameraInfo::AdvancedMode, String::from("YES"));
    n.set_sensor_info(h, CameraInfo::ProductId, String::from("0B07"));
    n.set_sensor_info(h, CameraInfo::CameraLocked, String::from("NO"));
    n.set_sensor_info(h, CameraInfo::AsicSerialNumber, String::from("936322070611"));
    n.set_sensor_info(h, CameraInfo::Count, String::from("14"));
    let s = Sensor::<Any>::from_raw(h);
    assert_eq!(s.recommended_firmware_version(&n).unwrap(), "5.13");
    assert_eq!(s.debug_op_code(&n).unwrap(), "15");
    assert_eq!(s.advanced_mode(&n).unwrap(), "YES");
    assert_eq!(s.product_id(&n).unwrap(), "0B07");
    assert_eq!(s.camera_locked(&n).unwrap(), "NO");
    assert_eq!(s.asic_serial_number(&n).unwrap(), "936322070611");
    assert_eq!(s.count(&n).unwrap(), "14");
}
