//! The closed tag sets the native layer understands: sensor subtype
//! extensions and camera-information attribute selectors.

use vstd::prelude::*;

verus! {

/// The closed set of specific sensor subtypes a generic handle may turn
/// out to be extendable to.
#[derive(Clone, Copy, Debug, PartialEq, Eq, Structural)]
pub enum Extension {
    Tm2Sensor,
    PoseSensor,
    ColorSensor,
    DepthSensor,
    MotionSensor,
    FishEyeSensor,
    SoftwareSensor,
    L500DepthSensor,
    DepthStereoSensor,
}

/// Which subtype extensions one native handle really supports.
///
/// The native layer may report several at once: a stereo depth sensor is
/// extendable both to the stereo subtype and to plain depth.
#[derive(Clone, Copy, Debug)]
pub struct ExtProfile {
    pub tm2: bool,
    pub pose: bool,
    pub color: bool,
    pub depth: bool,
    pub motion: bool,
    pub fish_eye: bool,
    pub software: bool,
    pub l500_depth: bool,
    pub depth_stereo: bool,
}

impl ExtProfile {
    /// Whether the profile reports extendability to `x`.
    pub open spec fn spec_has(self, x: Extension) -> bool {
        match x {
            Extension::Tm2Sensor => self.tm2,
            Extension::PoseSensor => self.pose,
            Extension::ColorSensor => self.color,
            Extension::DepthSensor => self.depth,
            Extension::MotionSensor => self.motion,
            Extension::FishEyeSensor => self.fish_eye,
            Extension::SoftwareSensor => self.software,
            Extension::L500DepthSensor => self.l500_depth,
            Extension::DepthStereoSensor => self.depth_stereo,
        }
    }

    /// The profile that reports no extendability at all.
    pub open spec fn spec_empty() -> ExtProfile {
        ExtProfile {
            tm2: false,
            pose: false,
            color: false,
            depth: false,
            motion: false,
            fish_eye: false,
            software: false,
            l500_depth: false,
            depth_stereo: false,
        }
    }

    /// Runtime construction of `spec_empty`.
    pub fn empty() -> (r: ExtProfile)
        ensures
            r == ExtProfile::spec_empty(),
            forall|x: Extension| !r.spec_has(x),
    {
        ExtProfile {
            tm2: false,
            pose: false,
            color: false,
            depth: false,
            motion: false,
            fish_eye: false,
            software: false,
            l500_depth: false,
            depth_stereo: false,
        }
    }

    /// The same profile with extendability to `x` switched on.
    pub fn with(self, x: Extension) -> (r: ExtProfile)
        ensures
            r.spec_has(x),
            forall|y: Extension| y != x ==> r.spec_has(y) == self.spec_has(y),
    {
        match x {
            Extension::Tm2Sensor => ExtProfile { tm2: true, ..self },
            Extension::PoseSensor => ExtProfile { pose: true, ..self },
            Extension::ColorSensor => ExtProfile { color: true, ..self },
            Extension::DepthSensor => ExtProfile { depth: true, ..self },
            Extension::MotionSensor => ExtProfile { motion: true, ..self },
            Extension::FishEyeSensor => ExtProfile { fish_eye: true, ..self },
            Extension::SoftwareSensor => ExtProfile { software: true, ..self },
            Extension::L500DepthSensor => ExtProfile { l500_depth: true, ..self },
            Extension::DepthStereoSensor => ExtProfile { depth_stereo: true, ..self },
        }
    }

    /// Runtime query matching `spec_has`.
    pub fn has(&self, x: Extension) -> (r: bool)
        ensures
            r == self.spec_has(x),
    {
        match x {
            Extension::Tm2Sensor => self.tm2,
            Extension::PoseSensor => self.pose,
            Extension::ColorSensor => self.color,
            Extension::DepthSensor => self.depth,
            Extension::MotionSensor => self.motion,
            Extension::FishEyeSensor => self.fish_eye,
            Extension::SoftwareSensor => self.software,
            Extension::L500DepthSensor => self.l500_depth,
            Extension::DepthStereoSensor => self.depth_stereo,
        }
    }
}

/// Attribute selectors for the camera-information query.
#[derive(Clone, Copy, Debug, PartialEq, Eq, Structural)]
pub enum CameraInfo {
    Name,
    SerialNumber,
    RecommendedFirmwareVersion,
    PhysicalPort,
    DebugOpCode,
    AdvancedMode,
    ProductId,
    CameraLocked,
    UsbTypeDescriptor,
    ProductLine,
    AsicSerialNumber,
    FirmwareUpdateId,
    Count,
}

/// The numeric code the native layer uses for an attribute selector.
pub open spec fn camera_info_code(k: CameraInfo) -> u32 {
    match k {
        CameraInfo::Name => 0,
        CameraInfo::SerialNumber => 1,
        CameraInfo::RecommendedFirmwareVersion => 3,
        CameraInfo::PhysicalPort => 4,
        CameraInfo::DebugOpCode => 5,
        CameraInfo::AdvancedMode => 6,
        CameraInfo::ProductId => 7,
        CameraInfo::CameraLocked => 8,
        CameraInfo::UsbTypeDescriptor => 9,
        CameraInfo::ProductLine => 10,
        CameraInfo::AsicSerialNumber => 11,
        CameraInfo::FirmwareUpdateId => 12,
        CameraInfo::Count => 13,
    }
}

impl CameraInfo {
    /// Runtime conversion matching `camera_info_code`.
    pub fn code(self) -> (c: u32)
        ensures
            c == camera_info_code(self),
    {
        match self {
            CameraInfo::Name => 0,
            CameraInfo::SerialNumber => 1,
            CameraInfo::RecommendedFirmwareVersion => 3,
            CameraInfo::PhysicalPort => 4,
            CameraInfo::DebugOpCode => 5,
            CameraInfo::AdvancedMode => 6,
            CameraInfo::ProductId => 7,
            CameraInfo::CameraLocked => 8,
            CameraInfo::UsbTypeDescriptor => 9,
            CameraInfo::ProductLine => 10,
            CameraInfo::AsicSerialNumber => 11,
            CameraInfo::FirmwareUpdateId => 12,
            CameraInfo::Count => 13,
        }
    }
}

} // verus!
