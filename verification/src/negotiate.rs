//! Stream selection, hardware probing and pixel-format negotiation.
//!
//! The codec advertises hardware configurations in a declared order; the
//! probe walks them, asks the shell to attempt device creation for each
//! eligible one, and keeps the first success.  Absence of hardware is not an
//! error: decoding falls back to software.

use vstd::prelude::*;
use crate::filters::DeviceKind;
use crate::filters::device_kind_name;
use crate::filters::spec_device_kind_name;
use crate::frame::PIX_FMT_NONE;
use crate::types::MediaLibError;

verus! {

/// What the demuxer reports about one stream of the input.
#[derive(Debug, Clone, Copy, PartialEq, Eq, Structural)]
pub struct StreamInfo {
    /// The stream's index in the container.
    pub index: usize,
    pub is_video: bool,
    /// The demuxer's quality score for the stream (resolution/bitrate).
    pub score: u64,
}

/// Picks the position of the best video stream: the highest score, ties
/// going to the earliest stream.  `None` when the input has no video stream.
pub fn select_best_stream(streams: &Vec<StreamInfo>) -> (r: Option<usize>)
    ensures
        r is None <==> (forall|j: int|
            0 <= j < streams@.len() ==> !(#[trigger] streams@[j]).is_video),
        r matches Some(k) ==> {
            &&& 0 <= k < streams@.len()
            &&& streams@[k as int].is_video
            &&& forall|j: int|
                0 <= j < streams@.len() && (#[trigger] streams@[j]).is_video ==> streams@[j].score
                    <= streams@[k as int].score
            &&& forall|j: int|
                0 <= j < k && (#[trigger] streams@[j]).is_video ==> streams@[j].score
                    < streams@[k as int].score
        },
{
    let mut best: Option<usize> = None;
    let mut i: usize = 0;
    while i < streams.len()
        invariant
            i <= streams@.len(),
            best is None <==> (forall|j: int| 0 <= j < i ==> !(#[trigger] streams@[j]).is_video),
            best matches Some(k) ==> {
                &&& 0 <= k < i
                &&& streams@[k as int].is_video
                &&& forall|j: int|
                    0 <= j < i && (#[trigger] streams@[j]).is_video ==> streams@[j].score
                        <= streams@[k as int].score
                &&& forall|j: int|
                    0 <= j < k && (#[trigger] streams@[j]).is_video ==> streams@[j].score
                        < streams@[k as int].score
            },
        decreases streams@.len() - i,
    {
        if streams[i].is_video {
            match best {
                None => {
                    best = Some(i);
                },
                Some(k) => {
                    if streams[i].score > streams[k].score {
                        best = Some(i);
                    }
                },
            }
        }
        i = i + 1;
    }
    best
}

/// One hardware configuration the codec advertises: a device type, the
/// pixel format frames take on that device, and whether the configuration
/// works through a device context.
#[derive(Debug, Clone, Copy, PartialEq, Eq, Structural)]
pub struct HardwareCandidate {
    pub device_type: DeviceKind,
    pub pixel_format: i32,
    /// Whether the configuration decodes through a hardware device context;
    /// only such candidates are worth a device-creation attempt.
    pub supports_device_context: bool,
}

/// A successfully created hardware device session, immutable afterwards.
#[derive(Debug, Clone, Copy, PartialEq, Eq, Structural)]
pub struct HardwareContext {
    pub device_kind: DeviceKind,
    pub pix_fmt: i32,
}

impl HardwareContext {
    /// Wraps the outcome of one device-creation attempt for a candidate:
    /// the created session when the attempt succeeded, the error when it
    /// did not.
    pub fn new(device_type: DeviceKind, pix_fmt: i32, device_created: bool) -> (r: Result<
        HardwareContext,
        MediaLibError,
    >)
        ensures
            r is Ok <==> device_created,
            r matches Ok(c) ==> c.device_kind == device_type && c.pix_fmt == pix_fmt,
            r matches Err(e) ==> e matches MediaLibError::FFmpegError(m) && m@
                == "Failed to create hardware device context for "@ + spec_device_kind_name(
                device_type,
            ),
    {
        if device_created {
            Ok(HardwareContext { device_kind: device_type, pix_fmt })
        } else {
            let mut m = String::from_str("Failed to create hardware device context for ");
            m.append(device_kind_name(device_type));
            Err(MediaLibError::FFmpegError(m))
        }
    }

    pub fn device_type(&self) -> (r: DeviceKind)
        ensures
            r == self.device_kind,
    {
        self.device_kind
    }

    pub fn pixel_format(&self) -> (r: i32)
        ensures
            r == self.pix_fmt,
    {
        self.pix_fmt
    }
}

/// A candidate takes part in probing iff it decodes through a device
/// context and the attempt to create its device succeeded.
pub open spec fn spec_probe_hit(c: HardwareCandidate, created: bool) -> bool {
    c.supports_device_context && created
}

/// Walks the advertised candidates in order against the recorded outcome of
/// each one's device-creation attempt, and keeps the first success.
///
/// `None` means every candidate failed: software-only operation, never an
/// error.
pub fn probe_hardware(candidates: &Vec<HardwareCandidate>, created: &Vec<bool>) -> (r: Option<
    HardwareContext,
>)
    requires
        created@.len() == candidates@.len(),
    ensures
        r is None <==> (forall|j: int|
            0 <= j < candidates@.len() ==> !spec_probe_hit(
                #[trigger] candidates@[j],
                created@[j],
            )),
        r matches Some(ctx) ==> (exists|k: int|
            {
                &&& 0 <= k < candidates@.len()
                &&& spec_probe_hit(#[trigger] candidates@[k], created@[k])
                &&& ctx.device_kind == candidates@[k].device_type
                &&& ctx.pix_fmt == candidates@[k].pixel_format
                &&& forall|j: int|
                    0 <= j < k ==> !spec_probe_hit(#[trigger] candidates@[j], created@[j])
            }),
{
    let mut i: usize = 0;
    while i < candidates.len()
        invariant
            i <= candidates@.len(),
            created@.len() == candidates@.len(),
            forall|j: int| 0 <= j < i ==> !spec_probe_hit(#[trigger] candidates@[j], created@[j]),
        decreases candidates@.len() - i,
    {
        let c = candidates[i];
        if c.supports_device_context && created[i] {
            match HardwareContext::new(c.device_type, c.pixel_format, true) {
                Ok(ctx) => {
                    return Some(ctx);
                },
                Err(_) => {
                    // Unreachable: creation was recorded as successful.
                },
            }
        }
        i = i + 1;
    }
    None
}

/// The position of the next candidate worth a device-creation attempt, at
/// or after `from`; the shell asks this before each attempt.
pub fn next_eligible_candidate(candidates: &Vec<HardwareCandidate>, from: usize) -> (r: Option<
    usize,
>)
    ensures
        r is None <==> (forall|j: int|
            from <= j < candidates@.len() ==> !(#[trigger] candidates@[j]).supports_device_context),
        r matches Some(k) ==> {
            &&& from <= k < candidates@.len()
            &&& candidates@[k as int].supports_device_context
            &&& forall|j: int|
                from <= j < k ==> !(#[trigger] candidates@[j]).supports_device_context
        },
{
    let mut i: usize = from;
    while i < candidates.len()
        invariant
            from <= i,
            i <= candidates@.len() || from > candidates@.len(),
            forall|j: int|
                from <= j < i && j < candidates@.len() ==> !(
                #[trigger] candidates@[j]).supports_device_context,
        decreases candidates@.len() - i,
    {
        if candidates[i].supports_device_context {
            return Some(i);
        }
        i = i + 1;
    }
    None
}

/// The format-negotiation callback's decision: the pre-selected hardware
/// pixel format when the codec offers it, else the "none" sentinel, which
/// forces software fallback.
pub fn negotiate_pixel_format(offered: &Vec<i32>, desired: i32) -> (r: i32)
    ensures
        (exists|j: int| 0 <= j < offered@.len() && offered@[j] == desired) ==> r == desired,
        !(exists|j: int| 0 <= j < offered@.len() && offered@[j] == desired) ==> r == PIX_FMT_NONE,
{
    let mut i: usize = 0;
    while i < offered.len()
        invariant
            i <= offered@.len(),
            forall|j: int| 0 <= j < i ==> offered@[j] != desired,
        decreases offered@.len() - i,
    {
        if offered[i] == desired {
            return desired;
        }
        i = i + 1;
    }
    PIX_FMT_NONE
}

} // verus!
