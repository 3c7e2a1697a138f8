//! An instrumented in-memory model of the native depth-sensing layer.
//!
//! The native SDK is a set of C calls that allocate opaque resources,
//! report failures through an error out-parameter, and require an explicit
//! delete per resource.  [`NativeLayer`] models exactly that surface: each
//! call returns its raw value together with the [`ErrorBuffer`] it left
//! behind, and the model counts every delete, so the ownership discipline
//! of the wrapper types can be verified against it.  An error can be
//! injected, after which every fallible call reports it and changes
//! nothing.

use vstd::prelude::*;

use crate::error::{ErrorBuffer, ErrorKind, RsError};
use crate::kind::{camera_info_code, CameraInfo, ExtProfile, Extension};

verus! {

/// One native resource as the model tracks it.
#[derive(Clone, Copy, Debug)]
pub struct HandleRecord {
    /// Created and not yet deleted.
    pub alive: bool,
    /// How many times the delete call ran on this resource.
    pub deletes: u64,
    /// Which subtype extensions the resource reports (sensors).
    pub exts: ExtProfile,
    /// Element count of the array resource this handle stands for, or the
    /// count that a recommended-blocks list derived from it will report.
    pub elem_count: usize,
}

/// A record as every reachable model state keeps it: deleted at most
/// once, never deleted while alive, and with a count a C `int` can carry.
pub open spec fn wf_record(r: HandleRecord) -> bool {
    &&& r.deletes <= 1
    &&& (r.alive ==> r.deletes == 0)
    &&& r.elem_count <= i32::MAX
}

/// A freshly created resource that carries no further attributes.
pub open spec fn plain_record() -> HandleRecord {
    HandleRecord { alive: true, deletes: 0, exts: ExtProfile::spec_empty(), elem_count: 0 }
}

/// A freshly created sensor resource.
pub open spec fn sensor_record(exts: ExtProfile, blocks: usize) -> HandleRecord {
    HandleRecord { alive: true, deletes: 0, exts, elem_count: blocks }
}

/// A freshly created array resource of `count` elements.
pub open spec fn list_record(count: usize) -> HandleRecord {
    HandleRecord { alive: true, deletes: 0, exts: ExtProfile::spec_empty(), elem_count: count }
}

/// `r` after one run of the delete call.
pub open spec fn deleted_record(r: HandleRecord) -> HandleRecord {
    HandleRecord {
        alive: false,
        deletes: (r.deletes + 1) as u64,
        exts: r.exts,
        elem_count: r.elem_count,
    }
}

/// One recorded string attribute: handle `handle` reports `value` for the
/// attribute selector with numeric code `code`.
#[derive(Debug)]
pub struct InfoEntry {
    pub handle: usize,
    pub code: u32,
    pub value: String,
}

/// The value the attribute table reports for `(h, code)`: the first entry
/// that matches, newest first.
pub open spec fn lookup_info(entries: Seq<InfoEntry>, h: usize, code: u32) -> Option<Seq<char>>
    decreases entries.len(),
{
    if entries.len() == 0 {
        None
    } else if entries[0].handle == h && entries[0].code == code {
        Some(entries[0].value@)
    } else {
        lookup_info(entries.drop_first(), h, code)
    }
}

/// The instrumented model of the native layer.
///
/// Raw handles are indices into `records`; index 0 is reserved so that 0
/// can play the role of the null pointer.
#[derive(Debug)]
pub struct NativeLayer {
    pub records: Vec<HandleRecord>,
    pub infos: Vec<InfoEntry>,
    pub error_flag: Option<RsError>,
}

impl NativeLayer {
    /// Every reachable model state satisfies this.
    pub open spec fn wf(self) -> bool {
        &&& self.records@.len() >= 1
        &&& !self.records@[0].alive
        &&& self.records@[0].deletes == 0
        &&& forall|i: int|
            0 <= i < self.records@.len() ==> wf_record(#[trigger] self.records@[i])
    }

    /// `h` is a raw handle this layer ever handed out.
    pub open spec fn valid(self, h: usize) -> bool {
        1 <= h && (h as int) < self.records@.len()
    }

    /// The record behind raw handle `h`.
    pub open spec fn rec(self, h: usize) -> HandleRecord {
        self.records@[h as int]
    }

    /// `h` was handed out and not yet deleted.
    pub open spec fn live(self, h: usize) -> bool {
        self.valid(h) && self.rec(h).alive
    }

    /// How many times the delete call ran on `h`.
    pub open spec fn delete_count(self, h: usize) -> u64 {
        self.rec(h).deletes
    }

    /// Whether an error is currently injected.
    pub open spec fn flagged(self) -> bool {
        self.error_flag is Some
    }

    /// The injected error.
    pub open spec fn injected(self) -> RsError {
        self.error_flag->0
    }

    /// `buf` carries exactly the injected kind and message.
    pub open spec fn reports_injected(self, buf: ErrorBuffer) -> bool {
        buf matches ErrorBuffer::Filled { kind, message } && kind == self.injected().kind
            && message == self.injected().message
    }

    /// `self` is `pre` with exactly one fresh record `r` appended under the
    /// fresh raw handle `h`.
    pub open spec fn allocated(self, pre: NativeLayer, h: usize, r: HandleRecord) -> bool {
        &&& h == pre.records@.len()
        &&& h != 0
        &&& self.records@ == pre.records@.push(r)
        &&& self.infos == pre.infos
        &&& self.error_flag == pre.error_flag
    }

    /// `self` is `pre` after exactly one delete of `h`.
    pub open spec fn deleted_one(self, pre: NativeLayer, h: usize) -> bool {
        &&& self.records@ == pre.records@.update(h as int, deleted_record(pre.rec(h)))
        &&& self.infos == pre.infos
        &&& self.error_flag == pre.error_flag
    }

    /// A fresh model: no handles yet, no injected error.
    pub fn new() -> (n: NativeLayer)
        ensures
            n.wf(),
            n.records@.len() == 1,
            n.infos@.len() == 0,
            !n.flagged(),
    {
        let mut records: Vec<HandleRecord> = Vec::new();
        records.push(
            HandleRecord { alive: false, deletes: 0, exts: ExtProfile::empty(), elem_count: 0 },
        );
        NativeLayer { records, infos: Vec::new(), error_flag: None }
    }

    fn new_handle(&mut self, r: HandleRecord) -> (h: usize)
        requires
            old(self).wf(),
            wf_record(r),
            r.alive,
        ensures
            final(self).wf(),
            final(self).allocated(*old(self), h, r),
            final(self).live(h),
            final(self).rec(h) == r,
    {
        let h = self.records.len();
        self.records.push(r);
        h
    }

    /// Puts a sensor resource into the model: it reports the extension
    /// profile `exts`, and a recommended-blocks list derived from it will
    /// hold `blocks` elements.
    pub fn install_sensor(&mut self, exts: ExtProfile, blocks: usize) -> (h: usize)
        requires
            old(self).wf(),
            blocks <= i32::MAX,
        ensures
            final(self).wf(),
            final(self).allocated(*old(self), h, sensor_record(exts, blocks)),
            final(self).live(h),
    {
        self.new_handle(HandleRecord { alive: true, deletes: 0, exts, elem_count: blocks })
    }

    /// Records a string attribute for `h`; the newest entry wins.
    pub fn set_sensor_info(&mut self, h: usize, kind: CameraInfo, value: String)
        requires
            old(self).wf(),
            old(self).live(h),
        ensures
            final(self).wf(),
            final(self).records == old(self).records,
            final(self).error_flag == old(self).error_flag,
            final(self).infos@ == old(self).infos@.insert(
                0,
                (InfoEntry { handle: h, code: camera_info_code(kind), value }),
            ),
            lookup_info(final(self).infos@, h, camera_info_code(kind)) == Some(value@),
    {
        let entry = InfoEntry { handle: h, code: kind.code(), value };
        self.infos.insert(0, entry);
    }

    /// Injects an error: from now on every fallible call reports it.
    pub fn inject_error(&mut self, kind: ErrorKind, message: String)
        ensures
            final(self).wf() == old(self).wf(),
            final(self).records == old(self).records,
            final(self).infos == old(self).infos,
            final(self).flagged(),
            final(self).injected().kind == kind,
            final(self).injected().message == message,
    {
        self.error_flag = Some(RsError { kind, message });
    }

    /// Clears an injected error.
    pub fn clear_error(&mut self)
        ensures
            final(self).wf() == old(self).wf(),
            final(self).records == old(self).records,
            final(self).infos == old(self).infos,
            !final(self).flagged(),
    {
        self.error_flag = None;
    }

    /// The delete call.  It has no error channel, and running it on a
    /// handle that is not alive is undefined behaviour in the native
    /// layer, so the model demands a live handle.
    pub fn delete(&mut self, h: usize)
        requires
            old(self).wf(),
            old(self).live(h),
        ensures
            final(self).wf(),
            final(self).deleted_one(*old(self), h),
            final(self).valid(h),
            !final(self).live(h),
            final(self).delete_count(h) == 1,
            forall|j: usize|
                old(self).valid(j) && j != h ==> final(self).rec(j) == old(self).rec(j),
    {
        let r = self.records[h];
        assert(wf_record(r));
        self.records[h] = HandleRecord {
            alive: false,
            deletes: r.deletes + 1,
            exts: r.exts,
            elem_count: r.elem_count,
        };
    }

    fn current_error(&self) -> (buf: ErrorBuffer)
        ensures
            self.flagged() ==> self.reports_injected(buf),
            !self.flagged() ==> buf is Clear,
    {
        match &self.error_flag {
            None => ErrorBuffer::Clear,
            Some(e) => ErrorBuffer::Filled { kind: e.kind, message: e.message.clone() },
        }
    }

    /// The native call that derives a device resource from a sensor.
    pub fn create_device_from_sensor(&mut self, h: usize) -> (r: (usize, ErrorBuffer))
        requires
            old(self).wf(),
            old(self).live(h),
        ensures
            final(self).wf(),
            old(self).flagged() ==> *final(self) == *old(self) && old(self).reports_injected(r.1),
            !old(self).flagged() ==> final(self).allocated(*old(self), r.0, plain_record())
                && final(self).live(r.0) && r.1 is Clear,
    {
        match self.current_error() {
            ErrorBuffer::Filled { kind, message } => (0, ErrorBuffer::Filled { kind, message }),
            ErrorBuffer::Clear => {
                let fresh = self.new_handle(
                    HandleRecord {
                        alive: true,
                        deletes: 0,
                        exts: ExtProfile::empty(),
                        elem_count: 0,
                    },
                );
                (fresh, ErrorBuffer::Clear)
            },
        }
    }

    /// The native call that lists a sensor's stream profiles as a fresh
    /// array resource.
    pub fn get_stream_profiles(&mut self, h: usize) -> (r: (usize, ErrorBuffer))
        requires
            old(self).wf(),
            old(self).live(h),
        ensures
            final(self).wf(),
            old(self).flagged() ==> *final(self) == *old(self) && old(self).reports_injected(r.1),
            !old(self).flagged() ==> final(self).allocated(*old(self), r.0, list_record(0))
                && final(self).live(r.0) && r.1 is Clear,
    {
        match self.current_error() {
            ErrorBuffer::Filled { kind, message } => (0, ErrorBuffer::Filled { kind, message }),
            ErrorBuffer::Clear => {
                let fresh = self.new_handle(
                    HandleRecord {
                        alive: true,
                        deletes: 0,
                        exts: ExtProfile::empty(),
                        elem_count: 0,
                    },
                );
                (fresh, ErrorBuffer::Clear)
            },
        }
    }

    /// The native call that hands out a sensor's recommended processing
    /// blocks as a fresh array resource.
    pub fn get_recommended_processing_blocks(&mut self, h: usize) -> (r: (usize, ErrorBuffer))
        requires
            old(self).wf(),
            old(self).live(h),
        ensures
            final(self).wf(),
            old(self).flagged() ==> *final(self) == *old(self) && old(self).reports_injected(r.1),
            !old(self).flagged() ==> final(self).allocated(
                *old(self),
                r.0,
                list_record(old(self).rec(h).elem_count),
            ) && final(self).live(r.0) && r.1 is Clear,
    {
        match self.current_error() {
            ErrorBuffer::Filled { kind, message } => (0, ErrorBuffer::Filled { kind, message }),
            ErrorBuffer::Clear => {
                let count = self.records[h].elem_count;
                let fresh = self.new_handle(
                    HandleRecord {
                        alive: true,
                        deletes: 0,
                        exts: ExtProfile::empty(),
                        elem_count: count,
                    },
                );
                (fresh, ErrorBuffer::Clear)
            },
        }
    }

    /// The native call that reports an array resource's element count.
    pub fn get_recommended_processing_blocks_count(&self, h: usize) -> (r: (i32, ErrorBuffer))
        requires
            self.wf(),
            self.live(h),
        ensures
            self.flagged() ==> self.reports_injected(r.1),
            !self.flagged() ==> r.1 is Clear && r.0 == self.rec(h).elem_count,
    {
        match self.current_error() {
            ErrorBuffer::Filled { kind, message } => (0, ErrorBuffer::Filled { kind, message }),
            ErrorBuffer::Clear => {
                let count = self.records[h].elem_count;
                (count as i32, ErrorBuffer::Clear)
            },
        }
    }

    /// The native call that fetches one element of an array resource as a
    /// fresh resource of its own.  An out-of-range index is answered with
    /// an error, per the native contract.
    pub fn get_processing_block(&mut self, h: usize, index: usize) -> (r: (usize, ErrorBuffer))
        requires
            old(self).wf(),
            old(self).live(h),
        ensures
            final(self).wf(),
            old(self).flagged() ==> *final(self) == *old(self) && old(self).reports_injected(r.1),
            !old(self).flagged() && index < old(self).rec(h).elem_count ==> final(self).allocated(
                *old(self),
                r.0,
                plain_record(),
            ) && final(self).live(r.0) && r.1 is Clear,
            !old(self).flagged() && index >= old(self).rec(h).elem_count ==> *final(self) == *old(self) && (r.1 matches ErrorBuffer::Filled { kind, message } && kind
                == ErrorKind::InvalidValue && message@ == "block index out of range"@),
    {
        match self.current_error() {
            ErrorBuffer::Filled { kind, message } => (0, ErrorBuffer::Filled { kind, message }),
            ErrorBuffer::Clear => {
                if index < self.records[h].elem_count {
                    let fresh = self.new_handle(
                        HandleRecord {
                            alive: true,
                            deletes: 0,
                            exts: ExtProfile::empty(),
                            elem_count: 0,
                        },
                    );
                    (fresh, ErrorBuffer::Clear)
                } else {
                    let buf = ErrorBuffer::Filled {
                        kind: ErrorKind::InvalidValue,
                        message: String::from_str("block index out of range"),
                    };
                    (0, buf)
                }
            },
        }
    }

    /// The native extendability query: bool as int.
    pub fn is_sensor_extendable_to(&self, h: usize, ext: Extension) -> (r: (i32, ErrorBuffer))
        requires
            self.wf(),
            self.live(h),
        ensures
            self.flagged() ==> self.reports_injected(r.1),
            !self.flagged() ==> r.1 is Clear && r.0 == (if self.rec(h).exts.spec_has(ext) {
                1int
            } else {
                0int
            }),
    {
        match self.current_error() {
            ErrorBuffer::Filled { kind, message } => (0, ErrorBuffer::Filled { kind, message }),
            ErrorBuffer::Clear => {
                let supported = self.records[h].exts.has(ext);
                (if supported { 1 } else { 0 }, ErrorBuffer::Clear)
            },
        }
    }

    fn find_info(&self, h: usize, code: u32) -> (r: Option<&String>)
        ensures
            match r {
                Some(s) => lookup_info(self.infos@, h, code) == Some(s@),
                None => lookup_info(self.infos@, h, code) is None,
            },
    {
        let end = self.infos.len();
        let mut i: usize = 0;
        proof {
            assert(self.infos@.skip(0) =~= self.infos@);
        }
        while i < end
            invariant
                end == self.infos@.len(),
                i <= end,
                lookup_info(self.infos@, h, code) == lookup_info(
                    self.infos@.skip(i as int),
                    h,
                    code,
                ),
            decreases end - i,
        {
            let e = &self.infos[i];
            if e.handle == h && e.code == code {
                proof {
                    assert(self.infos@.skip(i as int)[0] == self.infos@[i as int]);
                }
                return Some(&e.value);
            }
            proof {
                assert(self.infos@.skip(i as int)[0] == self.infos@[i as int]);
                assert(self.infos@.skip(i as int).drop_first() =~= self.infos@.skip(i as int + 1));
            }
            i = i + 1;
        }
        None
    }

    /// The native call that fetches a string attribute of a sensor.  An
    /// attribute the sensor does not carry is answered with an error.
    pub fn get_sensor_info(&self, h: usize, kind: CameraInfo) -> (r: (String, ErrorBuffer))
        requires
            self.wf(),
            self.live(h),
        ensures
            self.flagged() ==> self.reports_injected(r.1),
            !self.flagged() && lookup_info(self.infos@, h, camera_info_code(kind)) is Some
                ==> r.1 is Clear && Some(r.0@) == lookup_info(
                self.infos@,
                h,
                camera_info_code(kind),
            ),
            !self.flagged() && lookup_info(self.infos@, h, camera_info_code(kind)) is None ==> (
            r.1 matches ErrorBuffer::Filled { kind: ek, message } && ek == ErrorKind::InvalidValue
                && message@ == "unsupported sensor attribute"@),
    {
        match self.current_error() {
            ErrorBuffer::Filled { kind, message } => (
                String::new(),
                ErrorBuffer::Filled { kind, message },
            ),
            ErrorBuffer::Clear => {
                match self.find_info(h, kind.code()) {
                    Some(s) => (s.clone(), ErrorBuffer::Clear),
                    None => (
                        String::new(),
                        ErrorBuffer::Filled {
                            kind: ErrorKind::InvalidValue,
                            message: String::from_str("unsupported sensor attribute"),
                        },
                    ),
                }
            },
        }
    }

    /// The native query whether a sensor carries a string attribute:
    /// bool as int.
    pub fn supports_sensor_info(&self, h: usize, kind: CameraInfo) -> (r: (i32, ErrorBuffer))
        requires
            self.wf(),
            self.live(h),
        ensures
            self.flagged() ==> self.reports_injected(r.1),
            !self.flagged() ==> r.1 is Clear && r.0 == (if lookup_info(
                self.infos@,
                h,
                camera_info_code(kind),
            ) is Some {
                1int
            } else {
                0int
            }),
    {
        match self.current_error() {
            ErrorBuffer::Filled { kind, message } => (0, ErrorBuffer::Filled { kind, message }),
            ErrorBuffer::Clear => {
                match self.find_info(h, kind.code()) {
                    Some(_) => (1, ErrorBuffer::Clear),
                    None => (0, ErrorBuffer::Clear),
                }
            },
        }
    }

    /// Instrumentation: how many raw handles exist, the reserved null
    /// index included.
    pub fn handle_count(&self) -> (c: usize)
        ensures
            c == self.records@.len(),
    {
        self.records.len()
    }

    /// Instrumentation: how many times the delete call ran on `h`.
    pub fn delete_count_of(&self, h: usize) -> (c: u64)
        requires
            self.valid(h),
        ensures
            c == self.delete_count(h),
    {
        self.records[h].deletes
    }

    /// Instrumentation: whether `h` was handed out and not yet deleted.
    pub fn is_live(&self, h: usize) -> (b: bool)
        requires
            self.valid(h),
        ensures
            b == self.live(h),
    {
        self.records[h].alive
    }
}

/// In every reachable model state the delete call has run at most once on
/// every handle, and never on one that is still alive.
pub proof fn lemma_delete_at_most_once(n: NativeLayer, h: usize)
    requires
        n.wf(),
        n.valid(h),
    ensures
        n.delete_count(h) <= 1,
        n.live(h) ==> n.delete_count(h) == 0,
{
    assert(wf_record(n.records@[h as int]));
}

} // verus!
