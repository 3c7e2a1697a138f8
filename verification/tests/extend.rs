//! Typestate narrowing: the closed variant matches the handle's real
//! extendability, most-specific-first, with the pointer preserved.

use realsense_core::error::ErrorKind;
use realsense_core::kind::{ExtProfile, Extension};
use realsense_core::native::NativeLayer;
use realsense_core::sensor::{extension_priority, Any, Depth, ExtendedSensor, Sensor};

fn sensor_with(n: &mut NativeLayer, profile: ExtProfile) -> (usize, Sensor<Any>) {
    let h = n.install_sensor(profile, 0);
    (h, Sensor::<Any>::from_raw(h))
}

#[test]
fn single_match_yields_that_variant_with_same_pointer() {
    let mut n = NativeLayer::new();
    let (h, s) = sensor_with(&mut n, ExtProfile::empty().with(Extension::ColorSensor));
    match s.try_extend(&mut n).unwrap() {
        ExtendedSensor::Color(c) => assert_eq!(c.take(), h),
        _ => panic!("a color-only sensor must classify as color"),
    }
}

#[test]
fn every_single_subtype_classifies_as_itself() {
    let cases = [
        Extension::Tm2Sensor,
        Extension::PoseSensor,
        Extension::ColorSensor,
        Extension::DepthSensor,
        Extension::MotionSensor,
        Extension::FishEyeSensor,
        Extension::SoftwareSensor,
        Extension::L500DepthSensor,
        Extension::DepthStereoSensor,
    ];
    for ext in cases {
        let mut n = NativeLayer::new();
        let (h, s) = sensor_with(&mut n, ExtProfile::empty().with(ext));
        let got = s.try_extend(&mut n).unwrap();
        let matches_ext = match (&got, ext) {
            (ExtendedSensor::Tm2(_), Extension::Tm2Sensor) => true,
            (ExtendedSensor::Pose(_), Extension::PoseSensor) => true,
            (ExtendedSensor::Color(_), Extension::ColorSensor) => true,
            (ExtendedSensor::Depth(_), Extension::DepthSensor) => true,
            (ExtendedSensor::Motion(_), Extension::MotionSensor) => true,
            (ExtendedSensor::FishEye(_), Extension::FishEyeSensor) => true,
            (ExtendedSensor::Software(_), Extension::SoftwareSensor) => true,
            (ExtendedSensor::L500Depth(_), Extension::L500DepthSensor) => true,
            (ExtendedSensor::DepthStereo(_), Extension::DepthStereoSensor) => true,
            _ => false,
        };
        assert!(matches_ext, "wrong variant for {:?} (handle {})", ext, h);
    }
}

#[test]
fn no_match_yields_other_with_a_still_valid_handle() {
    let mut n = NativeLayer::new();
    let (h, s) = sensor_with(&mut n, ExtProfile::empty());
    match s.try_extend(&mut n).unwrap() {
        ExtendedSensor::Other(s) => {
            assert!(n.is_live(h));
            assert_eq!(n.delete_count_of(h), 0);
            s.delete(&mut n);
            assert_eq!(n.delete_count_of(h), 1);
        },
        _ => panic!("a sensor extendable to nothing must fall back to Other"),
    }
}

#[test]
fn stereo_and_depth_classifies_as_stereo() {
    let mut n = NativeLayer::new();
    let profile = ExtProfile::empty().with(Extension::DepthStereoSensor).with(
        Extension::DepthSensor,
    );
    let (h, s) = sensor_with(&mut n, profile);
    match s.try_extend(&mut n).unwrap() {
        ExtendedSensor::DepthStereo(c) => assert_eq!(c.take(), h),
        ExtendedSensor::Depth(_) => panic!("must not degrade stereo depth to plain depth"),
        _ => panic!("unexpected variant"),
    }
}

#[test]
fn l500_and_depth_classifies_as_l500() {
    let mut n = NativeLayer::new();
    let profile = ExtProfile::empty().with(Extension::L500DepthSensor).with(
        Extension::DepthSensor,
    );
    let (h, s) = sensor_with(&mut n, profile);
    match s.try_extend(&mut n).unwrap() {
        ExtendedSensor::L500Depth(c) => assert_eq!(c.take(), h),
        ExtendedSensor::Depth(_) => panic!("must not degrade the L500 subtype to plain depth"),
        _ => panic!("unexpected variant"),
    }
}

#[test]
fn is_extendable_to_reports_the_profile() {
    let mut n = NativeLayer::new();
    let (_, s) = sensor_with(&mut n, ExtProfile::empty().with(Extension::MotionSensor));
    assert!(s.is_extendable_to(&n, Extension::MotionSensor).unwrap());
    assert!(!s.is_extendable_to(&n, Extension::ColorSensor).unwrap());
}

#[test]
fn try_extend_to_success_retags_and_failure_returns_original() {
    let mut n = NativeLayer::new();
    let (h, s) = sensor_with(&mut n, ExtProfile::empty().with(Extension::DepthSensor));
    let depth: Sensor<Depth> = s.try_extend_to::<Depth>(&mut n).unwrap().unwrap();
    assert_eq!(depth.take(), h);

    let (h2, s2) = sensor_with(&mut n, ExtProfile::empty().with(Extension::ColorSensor));
    let back = s2.try_extend_to::<Depth>(&mut n).unwrap().unwrap_err();
    assert_eq!(back.take(), h2);
}

#[test]
fn failing_query_aborts_and_tears_the_handle_down() {
    let mut n = NativeLayer::new();
    let (h, s) = sensor_with(&mut n, ExtProfile::empty().with(Extension::DepthSensor));
    n.inject_error(ErrorKind::WrongApiCallSequence, String::from("bad handle"));
    let e = s.try_extend(&mut n).unwrap_err();
    assert_eq!(e.kind, ErrorKind::WrongApiCallSequence);
    assert_eq!(e.message, "bad handle");
    assert_eq!(n.delete_count_of(h), 1);
}

#[test]
fn probing_order_is_most_specific_first() {
    let order = extension_priority();
    assert_eq!(order.len(), 9);
    assert_eq!(order[0], Extension::DepthStereoSensor);
    assert_eq!(order[1], Extension::L500DepthSensor);
    assert_eq!(order[2], Extension::DepthSensor);
    assert_eq!(order[8], Extension::Tm2Sensor);
}
