//! The owning list and its one-shot consuming iterator: the iterator
//! yields exactly the reported length, stays exhausted afterwards, and
//! releases the array resource exactly once at whatever cursor position
//! it is torn down.

use realsense_core::kind::ExtProfile;
use realsense_core::native::NativeLayer;
use realsense_core::sensor::{Any, Sensor};

fn sensor_with_blocks(n: &mut NativeLayer, blocks: usize) -> Sensor<Any> {
    let h = n.install_sensor(ExtProfile::empty(), blocks);
    Sensor::<Any>::from_raw(h)
}

#[test]
fn list_reports_length_and_emptiness() {
    let mut n = NativeLayer::new();
    let s = sensor_with_blocks(&mut n, 3);
    let mut l = s.recommended_processing_blocks(&mut n).unwrap();
    assert_eq!(l.len(&n).unwrap(), 3);
    assert_eq!(l.len(&n).unwrap(), 3);
    assert!(!l.is_empty(&n).unwrap());
    l.delete(&mut n);
    let s2 = sensor_with_blocks(&mut n, 0);
    let mut l2 = s2.recommended_processing_blocks(&mut n).unwrap();
    assert!(l2.is_empty(&n).unwrap());
    l2.delete(&mut n);
}

#[test]
fn get_hands_out_fresh_elements() {
    let mut n = NativeLayer::new();
    let s = sensor_with_blocks(&mut n, 2);
    let mut l = s.recommended_processing_blocks(&mut n).unwrap();
    let b0 = l.get(&mut n, 0).unwrap();
    let b1 = l.get(&mut n, 1).unwrap();
    let p0 = b0.take();
    let p1 = b1.take();
    assert_ne!(p0, p1);
    assert!(n.is_live(p0));
    assert!(n.is_live(p1));
    l.delete(&mut n);
}

#[test]
fn get_out_of_range_is_a_native_error() {
    let mut n = NativeLayer::new();
    let s = sensor_with_blocks(&mut n, 2);
    let mut l = s.recommended_processing_blocks(&mut n).unwrap();
    let r = l.get(&mut n, 2);
    assert!(r.is_err());
    let e = r.unwrap_err();
    assert_eq!(e.kind, realsense_core::error::ErrorKind::InvalidValue);
    assert_eq!(e.message, "block index out of range");
    l.delete(&mut n);
}

#[test]
fn into_iter_yields_reported_length_then_stays_exhausted() {
    let mut n = NativeLayer::new();
    let s = sensor_with_blocks(&mut n, 3);
    let l = s.recommended_processing_blocks(&mut n).unwrap();
    let mut it = l.into_iter(&mut n);
    for _ in 0..3 {
        let item = it.next(&mut n);
        assert!(item.is_some());
        assert!(item.unwrap().is_ok());
    }
    assert!(it.next(&mut n).is_none());
    assert!(it.next(&mut n).is_none());
    it.delete(&mut n);
}

#[test]
fn into_iter_on_empty_list_is_immediately_exhausted() {
    let mut n = NativeLayer::new();
    let s = sensor_with_blocks(&mut n, 0);
    let l = s.recommended_processing_blocks(&mut n).unwrap();
    let mut it = l.into_iter(&mut n);
    assert!(it.next(&mut n).is_none());
    it.delete(&mut n);
}

#[test]
fn dropping_iterator_at_any_cursor_releases_once() {
    for stop_after in 0..4usize {
        let mut n = NativeLayer::new();
        let s = sensor_with_blocks(&mut n, 3);
        let l = s.recommended_processing_blocks(&mut n).unwrap();
        let mut it = l.into_iter(&mut n);
        let mut array_ptr = None;
        for _ in 0..stop_after {
            if let Some(Ok(b)) = it.next(&mut n) {
                let p = b.take();
                if array_ptr.is_none() {
                    array_ptr = Some(p);
                }
            }
        }
        it.delete(&mut n);
        let count = n.handle_count();
        let mut released_arrays = 0;
        for h in 1..count {
            if n.delete_count_of(h) == 1 {
                released_arrays += 1;
            }
            assert!(n.delete_count_of(h) <= 1);
        }
        assert_eq!(released_arrays, 1);
    }
}

#[test]
fn per_item_failure_advances_and_continues() {
    let mut n = NativeLayer::new();
    let s = sensor_with_blocks(&mut n, 2);
    let l = s.recommended_processing_blocks(&mut n).unwrap();
    let mut it = l.into_iter(&mut n);
    let first = it.next(&mut n).unwrap();
    assert!(first.is_ok());
    n.inject_error(realsense_core::error::ErrorKind::Backend, String::from("flaky slot"));
    let second = it.next(&mut n).unwrap();
    let e = second.unwrap_err();
    assert_eq!(e.kind, realsense_core::error::ErrorKind::Backend);
    assert_eq!(e.message, "flaky slot");
    n.clear_error();
    assert!(it.next(&mut n).is_none());
    it.delete(&mut n);
}

#[test]
fn try_into_iter_error_path_still_releases_the_list() {
    let mut n = NativeLayer::new();
    let s = sensor_with_blocks(&mut n, 2);
    let l = s.recommended_processing_blocks(&mut n).unwrap();
    n.inject_error(realsense_core::error::ErrorKind::Io, String::from("gone"));
    let before = n.handle_count();
    let r = l.try_into_iter(&mut n);
    assert!(r.is_err());
    let mut released = 0;
    for h in 1..before {
        if n.delete_count_of(h) == 1 {
            released += 1;
        }
    }
    assert_eq!(released, 1);
}

#[test]
fn length_at_the_native_int_ceiling_converts_exactly() {
    let mut n = NativeLayer::new();
    let s = sensor_with_blocks(&mut n, i32::MAX as usize);
    let mut l = s.recommended_processing_blocks(&mut n).unwrap();
    assert_eq!(l.len(&n).unwrap(), i32::MAX as usize);
    l.delete(&mut n);
}
