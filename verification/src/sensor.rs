//! The typestate-tagged sensor handle and its capability narrowing.
//!
//! A sensor handle starts under the generic tag [`Any`].  A narrowing
//! attempt asks the native layer whether the handle's real runtime type
//! is extendable to one specific subtype; on success the pointer moves
//! into a freshly retagged handle, on failure the generic handle comes
//! back unchanged.  [`Sensor::try_extend`] probes every known subtype
//! most-specific-first and yields the closed [`ExtendedSensor`] variant.

use core::marker::PhantomData;

use vstd::prelude::*;

use crate::device::Device;
use crate::error::{check, ErrorKind, RsResult};
use crate::kind::{camera_info_code, CameraInfo, ExtProfile, Extension};
use crate::native::{list_record, lookup_info, plain_record, NativeLayer};
use crate::processing_block_list::ProcessingBlockList;
use crate::stream_profile_list::StreamProfileList;

verus! {

/// Compile-time capability tag of a sensor handle.
pub trait SensorKind {

}

/// A tag that names one specific subtype: every tag but [`Any`].
pub trait NonAnySensorKind: SensorKind {
    /// The extension this tag stands for.
    spec fn spec_extension() -> Extension;

    /// Runtime value of `spec_extension`.
    fn extension() -> (e: Extension)
        ensures
            e == Self::spec_extension(),
    ;
}

/// The generic tag: nothing is known about the sensor's runtime type.
#[derive(Debug)]
pub struct Any;

impl SensorKind for Any {

}

#[derive(Debug)]
pub struct Tm2;

impl SensorKind for Tm2 {

}

impl NonAnySensorKind for Tm2 {
    open spec fn spec_extension() -> Extension {
        Extension::Tm2Sensor
    }

    fn extension() -> (e: Extension) {
        Extension::Tm2Sensor
    }
}

#[derive(Debug)]
pub struct Pose;

impl SensorKind for Pose {

}

impl NonAnySensorKind for Pose {
    open spec fn spec_extension() -> Extension {
        Extension::PoseSensor
    }

    fn extension() -> (e: Extension) {
        Extension::PoseSensor
    }
}

#[derive(Debug)]
pub struct Color;

impl SensorKind for Color {

}

impl NonAnySensorKind for Color {
    open spec fn spec_extension() -> Extension {
        Extension::ColorSensor
    }

    fn extension() -> (e: Extension) {
        Extension::ColorSensor
    }
}

#[derive(Debug)]
pub struct Depth;

impl SensorKind for Depth {

}

impl NonAnySensorKind for Depth {
    open spec fn spec_extension() -> Extension {
        Extension::DepthSensor
    }

    fn extension() -> (e: Extension) {
        Extension::DepthSensor
    }
}

#[derive(Debug)]
pub struct Motion;

impl SensorKind for Motion {

}

impl NonAnySensorKind for Motion {
    open spec fn spec_extension() -> Extension {
        Extension::MotionSensor
    }

    fn extension() -> (e: Extension) {
        Extension::MotionSensor
    }
}

#[derive(Debug)]
pub struct FishEye;

impl SensorKind for FishEye {

}

impl NonAnySensorKind for FishEye {
    open spec fn spec_extension() -> Extension {
        Extension::FishEyeSensor
    }

    fn extension() -> (e: Extension) {
        Extension::FishEyeSensor
    }
}

#[derive(Debug)]
pub struct Software;

impl SensorKind for Software {

}

impl NonAnySensorKind for Software {
    open spec fn spec_extension() -> Extension {
        Extension::SoftwareSensor
    }

    fn extension() -> (e: Extension) {
        Extension::SoftwareSensor
    }
}

#[derive(Debug)]
pub struct L500Depth;

impl SensorKind for L500Depth {

}

impl NonAnySensorKind for L500Depth {
    open spec fn spec_extension() -> Extension {
        Extension::L500DepthSensor
    }

    fn extension() -> (e: Extension) {
        Extension::L500DepthSensor
    }
}

#[derive(Debug)]
pub struct DepthStereo;

impl SensorKind for DepthStereo {

}

impl NonAnySensorKind for DepthStereo {
    open spec fn spec_extension() -> Extension {
        Extension::DepthStereoSensor
    }

    fn extension() -> (e: Extension) {
        Extension::DepthStereoSensor
    }
}

/// Represents a sensor on a device: a single-owner wrapper around a
/// native sensor resource, annotated with a compile-time capability tag.
/// The tag is trustworthy only because a retagged handle is constructed
/// solely after a successful runtime narrowing check.
#[derive(Debug)]
#[verifier::reject_recursive_types(Kind)]
pub struct Sensor<Kind> where Kind: SensorKind {
    ptr: usize,
    _kind: PhantomData<Kind>,
}

/// The closed outcome of a full narrowing attempt: one member per known
/// subtype, plus the fallback that returns the generic handle.
#[derive(Debug)]
pub enum ExtendedSensor {
    Color(Sensor<Color>),
    Depth(Sensor<Depth>),
    DepthStereo(Sensor<DepthStereo>),
    L500Depth(Sensor<L500Depth>),
    Motion(Sensor<Motion>),
    FishEye(Sensor<FishEye>),
    Software(Sensor<Software>),
    Pose(Sensor<Pose>),
    Tm2(Sensor<Tm2>),
    Other(Sensor<Any>),
}

/// The subtype a narrowing attempt settles on for a handle with
/// extension profile `e`: the first extendable candidate in the fixed
/// most-specific-first order, or none.  Derived subtypes come before the
/// general ones they overlap with: a handle extendable to both stereo
/// depth and plain depth classifies as stereo depth, and one extendable
/// to both the L500 depth subtype and plain depth as the former.
pub open spec fn classify(e: ExtProfile) -> Option<Extension> {
    if e.spec_has(Extension::DepthStereoSensor) {
        Some(Extension::DepthStereoSensor)
    } else if e.spec_has(Extension::L500DepthSensor) {
        Some(Extension::L500DepthSensor)
    } else if e.spec_has(Extension::DepthSensor) {
        Some(Extension::DepthSensor)
    } else if e.spec_has(Extension::ColorSensor) {
        Some(Extension::ColorSensor)
    } else if e.spec_has(Extension::MotionSensor) {
        Some(Extension::MotionSensor)
    } else if e.spec_has(Extension::FishEyeSensor) {
        Some(Extension::FishEyeSensor)
    } else if e.spec_has(Extension::SoftwareSensor) {
        Some(Extension::SoftwareSensor)
    } else if e.spec_has(Extension::PoseSensor) {
        Some(Extension::PoseSensor)
    } else if e.spec_has(Extension::Tm2Sensor) {
        Some(Extension::Tm2Sensor)
    } else {
        None
    }
}

/// The order in which `try_extend` probes the known subtypes.
pub open spec fn priority() -> Seq<Extension> {
    seq![
        Extension::DepthStereoSensor,
        Extension::L500DepthSensor,
        Extension::DepthSensor,
        Extension::ColorSensor,
        Extension::MotionSensor,
        Extension::FishEyeSensor,
        Extension::SoftwareSensor,
        Extension::PoseSensor,
        Extension::Tm2Sensor,
    ]
}

/// Runtime value of `priority`.
pub fn extension_priority() -> (v: Vec<Extension>)
    ensures
        v@ == priority(),
{
    let mut v: Vec<Extension> = Vec::new();
    v.push(Extension::DepthStereoSensor);
    v.push(Extension::L500DepthSensor);
    v.push(Extension::DepthSensor);
    v.push(Extension::ColorSensor);
    v.push(Extension::MotionSensor);
    v.push(Extension::FishEyeSensor);
    v.push(Extension::SoftwareSensor);
    v.push(Extension::PoseSensor);
    v.push(Extension::Tm2Sensor);
    proof {
        assert(v@ =~= priority());
    }
    v
}

impl ExtendedSensor {
    /// Which subtype member is populated; none for the fallback.
    pub open spec fn tag(self) -> Option<Extension> {
        match self {
            ExtendedSensor::Color(_) => Some(Extension::ColorSensor),
            ExtendedSensor::Depth(_) => Some(Extension::DepthSensor),
            ExtendedSensor::DepthStereo(_) => Some(Extension::DepthStereoSensor),
            ExtendedSensor::L500Depth(_) => Some(Extension::L500DepthSensor),
            ExtendedSensor::Motion(_) => Some(Extension::MotionSensor),
            ExtendedSensor::FishEye(_) => Some(Extension::FishEyeSensor),
            ExtendedSensor::Software(_) => Some(Extension::SoftwareSensor),
            ExtendedSensor::Pose(_) => Some(Extension::PoseSensor),
            ExtendedSensor::Tm2(_) => Some(Extension::Tm2Sensor),
            ExtendedSensor::Other(_) => None,
        }
    }

    /// The raw pointer carried by whichever member is populated.
    pub open spec fn sensor_id(self) -> usize {
        match self {
            ExtendedSensor::Color(s) => s.id(),
            ExtendedSensor::Depth(s) => s.id(),
            ExtendedSensor::DepthStereo(s) => s.id(),
            ExtendedSensor::L500Depth(s) => s.id(),
            ExtendedSensor::Motion(s) => s.id(),
            ExtendedSensor::FishEye(s) => s.id(),
            ExtendedSensor::Software(s) => s.id(),
            ExtendedSensor::Pose(s) => s.id(),
            ExtendedSensor::Tm2(s) => s.id(),
            ExtendedSensor::Other(s) => s.id(),
        }
    }
}

/// The outcome a string-attribute query owes for selector `kind` on the
/// sensor with raw pointer `id`: the injected error if one is pending,
/// else the recorded attribute value, else the native layer's complaint
/// about an unsupported attribute.
pub open spec fn info_result(
    n: NativeLayer,
    id: usize,
    kind: CameraInfo,
    r: RsResult<String>,
) -> bool {
    &&& n.flagged() ==> (r matches Err(e) && e == n.injected())
    &&& (!n.flagged() && lookup_info(n.infos@, id, camera_info_code(kind)) is Some) ==> (
    r matches Ok(s) && Some(s@) == lookup_info(n.infos@, id, camera_info_code(kind)))
    &&& (!n.flagged() && lookup_info(n.infos@, id, camera_info_code(kind)) is None) ==> (
    r matches Err(e) && e.kind == ErrorKind::InvalidValue
        && e.message@ == "unsupported sensor attribute"@)
}

impl<Kind> Sensor<Kind> where Kind: SensorKind {
    /// The raw resource pointer this wrapper owns.
    pub closed spec fn id(self) -> usize {
        self.ptr
    }

    /// The wrapped resource is live in the native layer.
    pub open spec fn owns(self, n: NativeLayer) -> bool {
        n.live(self.id())
    }

    /// Wraps a pointer obtained from a trusted source: the native layer
    /// or a prior `take`.  The caller must hold no other owner of it.
    pub fn from_raw(ptr: usize) -> (s: Sensor<Kind>)
        ensures
            s.id() == ptr,
    {
        Sensor { ptr, _kind: PhantomData }
    }

    /// Moves the raw pointer out.  The wrapper is consumed, so its
    /// teardown can never run again.
    pub fn take(self) -> (ptr: usize)
        ensures
            ptr == self.id(),
    {
        self.ptr
    }

    /// Teardown: runs the native delete on the owned resource exactly
    /// once.  Consuming the wrapper is what rules a second run out.
    pub fn delete(self, n: &mut NativeLayer)
        requires
            old(n).wf(),
            self.owns(*old(n)),
        ensures
            final(n).wf(),
            final(n).deleted_one(*old(n), self.id()),
            final(n).delete_count(self.id()) == 1,
            !final(n).live(self.id()),
    {
        n.delete(self.ptr)
    }

    /// Gets the corresponding device for the sensor, as a fresh owned
    /// handle.
    pub fn device(&self, n: &mut NativeLayer) -> (r: RsResult<Device>)
        requires
            old(n).wf(),
            self.owns(*old(n)),
        ensures
            final(n).wf(),
            self.owns(*final(n)),
            old(n).flagged() ==> (*final(n) == *old(n) && (r matches Err(e) && e == old(
                n,
            ).injected())),
            !old(n).flagged() ==> (r matches Ok(d) && final(n).allocated(
                *old(n),
                d.id(),
                plain_record(),
            ) && final(n).live(d.id())),
    {
        let (ptr, buf) = n.create_device_from_sensor(self.ptr);
        match check(buf) {
            Err(e) => Err(e),
            Ok(()) => Ok(Device::from_raw(ptr)),
        }
    }

    /// Lists the stream profiles on the sensor, as a fresh owned array
    /// handle.
    pub fn stream_profiles(&self, n: &mut NativeLayer) -> (r: RsResult<StreamProfileList>)
        requires
            old(n).wf(),
            self.owns(*old(n)),
        ensures
            final(n).wf(),
            self.owns(*final(n)),
            old(n).flagged() ==> (*final(n) == *old(n) && (r matches Err(e) && e == old(
                n,
            ).injected())),
            !old(n).flagged() ==> (r matches Ok(l) && final(n).allocated(
                *old(n),
                l.id(),
                list_record(0),
            ) && final(n).live(l.id())),
    {
        let (ptr, buf) = n.get_stream_profiles(self.ptr);
        match check(buf) {
            Err(e) => Err(e),
            Ok(()) => Ok(StreamProfileList::from_raw(ptr)),
        }
    }

    /// Hands out the sensor's recommended processing blocks as a fresh
    /// owned list.
    pub fn recommended_processing_blocks(&self, n: &mut NativeLayer) -> (r: RsResult<
        ProcessingBlockList,
    >)
        requires
            old(n).wf(),
            self.owns(*old(n)),
        ensures
            final(n).wf(),
            self.owns(*final(n)),
            old(n).flagged() ==> (*final(n) == *old(n) && (r matches Err(e) && e == old(
                n,
            ).injected())),
            !old(n).flagged() ==> (r matches Ok(l) && final(n).allocated(
                *old(n),
                l.id(),
                list_record(old(n).rec(self.id()).elem_count),
            ) && final(n).live(l.id()) && l.count_in(*final(n)) == old(n).rec(
                self.id(),
            ).elem_count),
    {
        let (ptr, buf) = n.get_recommended_processing_blocks(self.ptr);
        match check(buf) {
            Err(e) => Err(e),
            Ok(()) => Ok(ProcessingBlockList::from_raw(ptr)),
        }
    }

    /// Gets a string attribute of the sensor by one checked call.
    pub fn info(&self, n: &NativeLayer, kind: CameraInfo) -> (r: RsResult<String>)
        requires
            n.wf(),
            self.owns(*n),
        ensures
            info_result(*n, self.id(), kind, r),
    {
        let (value, buf) = n.get_sensor_info(self.ptr, kind);
        match check(buf) {
            Err(e) => Err(e),
            Ok(()) => Ok(value),
        }
    }

    /// Whether the sensor carries the string attribute `kind`.
    pub fn is_info_supported(&self, n: &NativeLayer, kind: CameraInfo) -> (r: RsResult<bool>)
        requires
            n.wf(),
            self.owns(*n),
        ensures
            n.flagged() ==> (r matches Err(e) && e == n.injected()),
            !n.flagged() ==> (r matches Ok(b) && b == (lookup_info(
                n.infos@,
                self.id(),
                camera_info_code(kind),
            ) is Some)),
    {
        let (val, buf) = n.supports_sensor_info(self.ptr, kind);
        match check(buf) {
            Err(e) => Err(e),
            Ok(()) => Ok(val != 0),
        }
    }

    pub fn name(&self, n: &NativeLayer) -> (r: RsResult<String>)
        requires
            n.wf(),
            self.owns(*n),
        ensures
            info_result(*n, self.id(), CameraInfo::Name, r),
    {
        self.info(n, CameraInfo::Name)
    }

    pub fn serial_number(&self, n: &NativeLayer) -> (r: RsResult<String>)
        requires
            n.wf(),
            self.owns(*n),
        ensures
            info_result(*n, self.id(), CameraInfo::SerialNumber, r),
    {
        self.info(n, CameraInfo::SerialNumber)
    }

    pub fn recommended_firmware_version(&self, n: &NativeLayer) -> (r: RsResult<String>)
        requires
            n.wf(),
            self.owns(*n),
        ensures
            info_result(*n, self.id(), CameraInfo::RecommendedFirmwareVersion, r),
    {
        self.info(n, CameraInfo::RecommendedFirmwareVersion)
    }

    pub fn physical_port(&self, n: &NativeLayer) -> (r: RsResult<String>)
        requires
            n.wf(),
            self.owns(*n),
        ensures
            info_result(*n, self.id(), CameraInfo::PhysicalPort, r),
    {
        self.info(n, CameraInfo::PhysicalPort)
    }

    pub fn debug_op_code(&self, n: &NativeLayer) -> (r: RsResult<String>)
        requires
            n.wf(),
            self.owns(*n),
        ensures
            info_result(*n, self.id(), CameraInfo::DebugOpCode, r),
    {
        self.info(n, CameraInfo::DebugOpCode)
    }

    pub fn advanced_mode(&self, n: &NativeLayer) -> (r: RsResult<String>)
        requires
            n.wf(),
            self.owns(*n),
        ensures
            info_result(*n, self.id(), CameraInfo::AdvancedMode, r),
    {
        self.info(n, CameraInfo::AdvancedMode)
    }

    pub fn product_id(&self, n: &NativeLayer) -> (r: RsResult<String>)
        requires
            n.wf(),
            self.owns(*n),
        ensures
            info_result(*n, self.id(), CameraInfo::ProductId, r),
    {
        self.info(n, CameraInfo::ProductId)
    }

    pub fn camera_locked(&self, n: &NativeLayer) -> (r: RsResult<String>)
        requires
            n.wf(),
            self.owns(*n),
        ensures
            info_result(*n, self.id(), CameraInfo::CameraLocked, r),
    {
        self.info(n, CameraInfo::CameraLocked)
    }

    pub fn usb_type_descriptor(&self, n: &NativeLayer) -> (r: RsResult<String>)
        requires
            n.wf(),
            self.owns(*n),
        ensures
            info_result(*n, self.id(), CameraInfo::UsbTypeDescriptor, r),
    {
        self.info(n, CameraInfo::UsbTypeDescriptor)
    }

    pub fn product_line(&self, n: &NativeLayer) -> (r: RsResult<String>)
        requires
            n.wf(),
            self.owns(*n),
        ensures
            info_result(*n, self.id(), CameraInfo::ProductLine, r),
    {
        self.info(n, CameraInfo::ProductLine)
    }

    pub fn asic_serial_number(&self, n: &NativeLayer) -> (r: RsResult<String>)
        requires
            n.wf(),
            self.owns(*n),
        ensures
            info_result(*n, self.id(), CameraInfo::AsicSerialNumber, r),
    {
        self.info(n, CameraInfo::AsicSerialNumber)
    }

    pub fn firmware_update_id(&self, n: &NativeLayer) -> (r: RsResult<String>)
        requires
            n.wf(),
            self.owns(*n),
        ensures
            info_result(*n, self.id(), CameraInfo::FirmwareUpdateId, r),
    {
        self.info(n, CameraInfo::FirmwareUpdateId)
    }

    pub fn count(&self, n: &NativeLayer) -> (r: RsResult<String>)
        requires
            n.wf(),
            self.owns(*n),
        ensures
            info_result(*n, self.id(), CameraInfo::Count, r),
    {
        self.info(n, CameraInfo::Count)
    }
}

impl Sensor<Any> {
    /// Asks the native layer whether this handle's runtime type is
    /// extendable to `extension`.
    pub fn is_extendable_to(&self, n: &NativeLayer, extension: Extension) -> (r: RsResult<bool>)
        requires
            n.wf(),
            self.owns(*n),
        ensures
            n.flagged() ==> (r matches Err(e) && e == n.injected()),
            !n.flagged() ==> (r matches Ok(b) && b == n.rec(self.id()).exts.spec_has(extension)),
    {
        let (val, buf) = n.is_sensor_extendable_to(self.ptr, extension);
        match check(buf) {
            Err(e) => Err(e),
            Ok(()) => Ok(val != 0),
        }
    }

    /// One narrowing attempt.  On a positive answer the pointer moves
    /// into a freshly retagged handle; on a negative one the generic
    /// handle comes back unchanged, so the next candidate can be tried
    /// without the resource being lost or duplicated.  A failing query
    /// consumes the handle: it is torn down here and the error
    /// propagated.
    pub fn try_extend_to<NewKind>(self, n: &mut NativeLayer) -> (r: RsResult<
        Result<Sensor<NewKind>, Sensor<Any>>,
    >) where NewKind: NonAnySensorKind
        requires
            old(n).wf(),
            self.owns(*old(n)),
        ensures
            final(n).wf(),
            old(n).flagged() ==> ((r matches Err(e) && e == old(n).injected()) && final(n).deleted_one(*old(n), self.id()) && final(n).delete_count(self.id()) == 1),
            !old(n).flagged() ==> *final(n) == *old(n),
            (!old(n).flagged() && old(n).rec(self.id()).exts.spec_has(NewKind::spec_extension()))
                ==> (r matches Ok(inner) && (inner matches Ok(s) && s.id() == self.id())),
            (!old(n).flagged() && !old(n).rec(self.id()).exts.spec_has(NewKind::spec_extension()))
                ==> (r matches Ok(inner) && (inner matches Err(s) && s.id() == self.id())),
    {
        match self.is_extendable_to(&*n, NewKind::extension()) {
            Err(e) => {
                self.delete(n);
                Err(e)
            },
            Ok(true) => {
                let ptr = self.take();
                Ok(Ok(Sensor::from_raw(ptr)))
            },
            Ok(false) => Ok(Err(self)),
        }
    }

    /// The full narrowing: probes every known subtype in the fixed
    /// most-specific-first order of [`priority`], short-circuits on the
    /// first success, and falls back to the generic member.  The
    /// resulting variant is exactly [`classify`] of the handle's
    /// extension profile, and the resource pointer is the original one
    /// throughout.  A failing query aborts immediately; the handle is
    /// torn down on that path and the error propagated.
    pub fn try_extend(self, n: &mut NativeLayer) -> (r: RsResult<ExtendedSensor>)
        requires
            old(n).wf(),
            self.owns(*old(n)),
        ensures
            final(n).wf(),
            old(n).flagged() ==> ((r matches Err(e) && e == old(n).injected()) && final(n).deleted_one(*old(n), self.id()) && final(n).delete_count(self.id()) == 1),
            !old(n).flagged() ==> (*final(n) == *old(n) && (r matches Ok(v) && v.tag() == classify(
                old(n).rec(self.id()).exts,
            ) && v.sensor_id() == self.id())),
    {
        let sensor_any = self;

        let sensor_any = match sensor_any.try_extend_to::<DepthStereo>(n) {
            Err(e) => return Err(e),
            Ok(Ok(sensor)) => return Ok(ExtendedSensor::DepthStereo(sensor)),
            Ok(Err(sensor)) => sensor,
        };

        let sensor_any = match sensor_any.try_extend_to::<L500Depth>(n) {
            Err(e) => return Err(e),
            Ok(Ok(sensor)) => return Ok(ExtendedSensor::L500Depth(sensor)),
            Ok(Err(sensor)) => sensor,
        };

        let sensor_any = match sensor_any.try_extend_to::<Depth>(n) {
            Err(e) => return Err(e),
            Ok(Ok(sensor)) => return Ok(ExtendedSensor::Depth(sensor)),
            Ok(Err(sensor)) => sensor,
        };

        let sensor_any = match sensor_any.try_extend_to::<Color>(n) {
            Err(e) => return Err(e),
            Ok(Ok(sensor)) => return Ok(ExtendedSensor::Color(sensor)),
            Ok(Err(sensor)) => sensor,
        };

        let sensor_any = match sensor_any.try_extend_to::<Motion>(n) {
            Err(e) => return Err(e),
            Ok(Ok(sensor)) => return Ok(ExtendedSensor::Motion(sensor)),
            Ok(Err(sensor)) => sensor,
        };

        let sensor_any = match sensor_any.try_extend_to::<FishEye>(n) {
            Err(e) => return Err(e),
            Ok(Ok(sensor)) => return Ok(ExtendedSensor::FishEye(sensor)),
            Ok(Err(sensor)) => sensor,
        };

        let sensor_any = match sensor_any.try_extend_to::<Software>(n) {
            Err(e) => return Err(e),
            Ok(Ok(sensor)) => return Ok(ExtendedSensor::Software(sensor)),
            Ok(Err(sensor)) => sensor,
        };

        let sensor_any = match sensor_any.try_extend_to::<Pose>(n) {
            Err(e) => return Err(e),
            Ok(Ok(sensor)) => return Ok(ExtendedSensor::Pose(sensor)),
            Ok(Err(sensor)) => sensor,
        };

        let sensor_any = match sensor_any.try_extend_to::<Tm2>(n) {
            Err(e) => return Err(e),
            Ok(Ok(sensor)) => return Ok(ExtendedSensor::Tm2(sensor)),
            Ok(Err(sensor)) => sensor,
        };

        Ok(ExtendedSensor::Other(sensor_any))
    }
}

/// A profile extendable to exactly one subtype classifies as that
/// subtype, never as the fallback and never as another member.
pub proof fn lemma_classify_unique(e: ExtProfile, x: Extension)
    requires
        e.spec_has(x),
        forall|y: Extension| y != x ==> !(#[trigger] e.spec_has(y)),
    ensures
        classify(e) == Some(x),
{
    assert(x != Extension::DepthStereoSensor ==> !e.spec_has(Extension::DepthStereoSensor));
    assert(x != Extension::DepthSensor ==> !e.spec_has(Extension::DepthSensor));
    assert(x != Extension::L500DepthSensor ==> !e.spec_has(Extension::L500DepthSensor));
    assert(x != Extension::ColorSensor ==> !e.spec_has(Extension::ColorSensor));
    assert(x != Extension::MotionSensor ==> !e.spec_has(Extension::MotionSensor));
    assert(x != Extension::FishEyeSensor ==> !e.spec_has(Extension::FishEyeSensor));
    assert(x != Extension::SoftwareSensor ==> !e.spec_has(Extension::SoftwareSensor));
    assert(x != Extension::PoseSensor ==> !e.spec_has(Extension::PoseSensor));
    assert(x != Extension::Tm2Sensor ==> !e.spec_has(Extension::Tm2Sensor));
}

/// A profile extendable to no subtype at all classifies as the fallback.
pub proof fn lemma_classify_none(e: ExtProfile)
    requires
        forall|y: Extension| !(#[trigger] e.spec_has(y)),
    ensures
        classify(e) is None,
{
    assert(!e.spec_has(Extension::DepthStereoSensor));
    assert(!e.spec_has(Extension::DepthSensor));
    assert(!e.spec_has(Extension::L500DepthSensor));
    assert(!e.spec_has(Extension::ColorSensor));
    assert(!e.spec_has(Extension::MotionSensor));
    assert(!e.spec_has(Extension::FishEyeSensor));
    assert(!e.spec_has(Extension::SoftwareSensor));
    assert(!e.spec_has(Extension::PoseSensor));
    assert(!e.spec_has(Extension::Tm2Sensor));
}

/// Most-specific-first: a profile extendable to both stereo depth and
/// plain depth classifies as stereo depth, never as plain depth.
pub proof fn lemma_classify_stereo_before_depth(e: ExtProfile)
    requires
        e.spec_has(Extension::DepthStereoSensor),
        e.spec_has(Extension::DepthSensor),
    ensures
        classify(e) == Some(Extension::DepthStereoSensor),
{
}

/// Most-specific-first: a profile extendable to both the L500 depth
/// subtype and plain depth classifies as the L500 subtype, never as
/// plain depth.
pub proof fn lemma_classify_l500_before_depth(e: ExtProfile)
    requires
        e.spec_has(Extension::L500DepthSensor),
        e.spec_has(Extension::DepthSensor),
        !e.spec_has(Extension::DepthStereoSensor),
    ensures
        classify(e) == Some(Extension::L500DepthSensor),
{
}

/// The classification is exactly first-match over the probing order:
/// if the profile is extendable to the candidate at position `i` and to
/// no earlier one, it classifies as that candidate.
pub proof fn lemma_classify_first_match(e: ExtProfile, i: int)
    requires
        0 <= i < priority().len(),
        e.spec_has(priority()[i]),
        forall|j: int| 0 <= j < i ==> !e.spec_has(#[trigger] priority()[j]),
    ensures
        classify(e) == Some(priority()[i]),
{
    assert(priority()[0] == Extension::DepthStereoSensor);
    assert(priority()[1] == Extension::L500DepthSensor);
    assert(priority()[2] == Extension::DepthSensor);
    assert(priority()[3] == Extension::ColorSensor);
    assert(priority()[4] == Extension::MotionSensor);
    assert(priority()[5] == Extension::FishEyeSensor);
    assert(priority()[6] == Extension::SoftwareSensor);
    assert(priority()[7] == Extension::PoseSensor);
    assert(priority()[8] == Extension::Tm2Sensor);
}

} // verus!
