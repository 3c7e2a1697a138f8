//! The native delete call runs exactly once per created resource,
//! whatever sequence of take and teardown the owner goes through.

use realsense_core::kind::ExtProfile;
use realsense_core::native::NativeLayer;
use realsense_core::sensor::{Any, Sensor};

#[test]
fn delete_runs_native_delete_exactly_once() {
    let mut n = NativeLayer::new();
    let h = n.install_sensor(ExtProfile::empty(), 0);
    assert_eq!(n.delete_count_of(h), 0);
    assert!(n.is_live(h));
    let s = Sensor::<Any>::from_raw(h);
    s.delete(&mut n);
    assert_eq!(n.delete_count_of(h), 1);
    assert!(!n.is_live(h));
}

#[test]
fn take_alone_never_deletes() {
    let mut n = NativeLayer::new();
    let h = n.install_sensor(ExtProfile::empty(), 0);
    let s = Sensor::<Any>::from_raw(h);
    let ptr = s.take();
    assert_eq!(ptr, h);
    assert_eq!(n.delete_count_of(h), 0);
    assert!(n.is_live(h));
}

#[test]
fn take_then_rewrap_then_delete_counts_once() {
    let mut n = NativeLayer::new();
    let h = n.install_sensor(ExtProfile::empty(), 0);
    let s = Sensor::<Any>::from_raw(h);
    let ptr = s.take();
    let s2 = Sensor::<Any>::from_raw(ptr);
    s2.delete(&mut n);
    assert_eq!(n.delete_count_of(h), 1);
}

#[test]
fn two_owners_tear_down_independently() {
    let mut n = NativeLayer::new();
    let h1 = n.install_sensor(ExtProfile::empty(), 0);
    let h2 = n.install_sensor(ExtProfile::empty(), 0);
    let s1 = Sensor::<Any>::from_raw(h1);
    let s2 = Sensor::<Any>::from_raw(h2);
    s1.delete(&mut n);
    assert_eq!(n.delete_count_of(h1), 1);
    assert_eq!(n.delete_count_of(h2), 0);
    assert!(n.is_live(h2));
    s2.delete(&mut n);
    assert_eq!(n.delete_count_of(h2), 1);
}

#[test]
fn device_is_a_fresh_owned_resource() {
    let mut n = NativeLayer::new();
    let h = n.install_sensor(ExtProfile::empty(), 0);
    let s = Sensor::<Any>::from_raw(h);
    let d = s.device(&mut n).unwrap();
    let dh = d.take();
    assert_ne!(dh, h);
    assert!(n.is_live(dh));
    let d = realsense_core::device::Device::from_raw(dh);
    d.delete(&mut n);
    assert_eq!(n.delete_count_of(dh), 1);
    assert_eq!(n.delete_count_of(h), 0);
    s.delete(&mut n);
    assert_eq!(n.delete_count_of(h), 1);
}

#[test]
fn stream_profiles_is_a_fresh_owned_resource() {
    let mut n = NativeLayer::new();
    let h = n.install_sensor(ExtProfile::empty(), 0);
    let s = Sensor::<Any>::from_raw(h);
    let l = s.stream_profiles(&mut n).unwrap();
    let lh = l.take();
    assert_ne!(lh, h);
    assert!(n.is_live(lh));
    let l = realsense_core::stream_profile_list::StreamProfileList::from_raw(lh);
    l.delete(&mut n);
    assert_eq!(n.delete_count_of(lh), 1);
    s.delete(&mut n);
}
