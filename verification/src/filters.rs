//! Textual descriptions of the processing chains the graph is built from.
//!
//! Each hardware backend has its own node sequence and parameter encoding;
//! with no backend the chain falls back to a software scale.  The functions
//! here produce exactly the description text their contracts spell out,
//! character for character.

use vstd::prelude::*;
use crate::frame::PIX_FMT_NV12;
use crate::frame::PIX_FMT_YUV420P;
use crate::text::spec_decimal;
use crate::text::spec_decimal_i64;
use crate::text::decimal_u64;
use crate::text::decimal_i64;
use crate::types::MediaLibError;

verus! {

/// The kind of hardware device a decode/filter backend runs on.
#[derive(Debug, Clone, Copy, PartialEq, Eq, Structural)]
pub enum DeviceKind {
    Cuda,
    VideoToolbox,
    /// Any other device type the codec library advertises.
    Other,
}

/// The name a device kind goes by in messages.
pub open spec fn spec_device_kind_name(k: DeviceKind) -> Seq<char> {
    match k {
        DeviceKind::Cuda => "Cuda"@,
        DeviceKind::VideoToolbox => "VideoToolbox"@,
        DeviceKind::Other => "Other"@,
    }
}

/// Names a device kind for messages.
pub fn device_kind_name(k: DeviceKind) -> (r: &'static str)
    ensures
        r@ == spec_device_kind_name(k),
{
    match k {
        DeviceKind::Cuda => "Cuda",
        DeviceKind::VideoToolbox => "VideoToolbox",
        DeviceKind::Other => "Other",
    }
}

/// The scale-and-convert chain for the given backend: an upload, a
/// backend-specific scale to `w` x `h`, a download, and a conversion to
/// planar YUV 4:2:0.  Without a backend, a plain software scale.
pub open spec fn spec_chain_text(device: Option<DeviceKind>, w: nat, h: nat, pix: int) -> Seq<
    char,
> {
    match device {
        Some(DeviceKind::Cuda) => "hwupload_cuda,scale_cuda="@ + spec_decimal(w) + ":"@
            + spec_decimal(h) + ",hwdownload_cuda,format=yuv420p"@,
        Some(DeviceKind::VideoToolbox) => "format="@ + spec_decimal_i64(pix)
            + ",hwupload,scale_vt="@ + spec_decimal(w) + ":"@ + spec_decimal(h)
            + ",hwdownload,format=nv12,format=yuv420p"@,
        _ => "scale="@ + spec_decimal(w) + ":"@ + spec_decimal(h) + ",format=yuv420p"@,
    }
}

/// A VideoToolbox chain needs the negotiated pixel format spelled out; every
/// other backend's chain can be written without one.
pub open spec fn spec_chain_ok(device: Option<DeviceKind>, pix: Option<i32>) -> bool {
    device == Some(DeviceKind::VideoToolbox) ==> pix is Some
}

/// Builds the filter-chain description for one backend.
///
/// Mirrors the chain the decoder links between its buffer source and sink:
/// hardware upload/scale/download for CUDA and VideoToolbox, a software
/// scale otherwise.
pub fn create_filter_str(
    device: Option<DeviceKind>,
    target_width: u32,
    target_height: u32,
    pix_fmt: Option<i32>,
) -> (r: Result<String, MediaLibError>)
    ensures
        r is Ok <==> spec_chain_ok(device, pix_fmt),
        r matches Ok(s) ==> s@ == spec_chain_text(
            device,
            target_width as nat,
            target_height as nat,
            if pix_fmt is Some {
                pix_fmt->0 as int
            } else {
                0
            },
        ),
        r matches Err(e) ==> e matches MediaLibError::FFmpegError(m) && m@
            == "No pixel format provided for VideoToolbox"@,
{
    let w = decimal_u64(target_width as u64);
    let h = decimal_u64(target_height as u64);
    match device {
        Some(DeviceKind::Cuda) => {
            let mut s = String::from_str("hwupload_cuda,scale_cuda=");
            s.append(w.as_str());
            s.append(":");
            s.append(h.as_str());
            s.append(",hwdownload_cuda,format=yuv420p");
            Ok(s)
        },
        Some(DeviceKind::VideoToolbox) => {
            match pix_fmt {
                Some(p) => {
                    let pts = decimal_i64(p as i64);
                    let mut s = String::from_str("format=");
                    s.append(pts.as_str());
                    s.append(",hwupload,scale_vt=");
                    s.append(w.as_str());
                    s.append(":");
                    s.append(h.as_str());
                    s.append(",hwdownload,format=nv12,format=yuv420p");
                    Ok(s)
                },
                None => Err(
                    MediaLibError::FFmpegError(
                        String::from_str("No pixel format provided for VideoToolbox"),
                    ),
                ),
            }
        },
        _ => {
            let mut s = String::from_str("scale=");
            s.append(w.as_str());
            s.append(":");
            s.append(h.as_str());
            s.append(",format=yuv420p");
            Ok(s)
        },
    }
}

/// The parameter text the graph's buffer-source node is configured with:
/// the decoded geometry, the pixel format identifier, and the stream time
/// base.
pub open spec fn spec_source_args_text(
    w: nat,
    h: nat,
    pix: int,
    tb_num: int,
    tb_den: int,
) -> Seq<char> {
    "video_size="@ + spec_decimal(w) + "x"@ + spec_decimal(h) + ":pix_fmt="@ + spec_decimal_i64(
        pix,
    ) + ":time_base="@ + spec_decimal_i64(tb_num) + "/"@ + spec_decimal_i64(tb_den)
}

/// Builds the buffer-source parameter text for the given source geometry
/// and time base.
pub fn create_source_args(
    width: u32,
    height: u32,
    pix_fmt: i32,
    time_base_num: i32,
    time_base_den: i32,
) -> (r: String)
    ensures
        r@ == spec_source_args_text(
            width as nat,
            height as nat,
            pix_fmt as int,
            time_base_num as int,
            time_base_den as int,
        ),
{
    let w = decimal_u64(width as u64);
    let h = decimal_u64(height as u64);
    let pix = decimal_i64(pix_fmt as i64);
    let num = decimal_i64(time_base_num as i64);
    let den = decimal_i64(time_base_den as i64);
    let mut s = String::from_str("video_size=");
    s.append(w.as_str());
    s.append("x");
    s.append(h.as_str());
    s.append(":pix_fmt=");
    s.append(pix.as_str());
    s.append(":time_base=");
    s.append(num.as_str());
    s.append("/");
    s.append(den.as_str());
    s
}

/// The name under which the chain text addresses an input pixel format:
/// known planar formats by name, anything else as the hardware default.
pub open spec fn spec_format_name(pix: int) -> Seq<char> {
    if pix == PIX_FMT_NV12 {
        "nv12"@
    } else if pix == PIX_FMT_YUV420P {
        "yuv420p"@
    } else {
        "nv12"@
    }
}

/// The self-contained graph description used when source and sink are
/// declared inside the text: a buffer source parameterised with the decoded
/// geometry, the backend's transform chain, and a buffer sink.
pub open spec fn spec_graph_text(
    device: DeviceKind,
    src_w: nat,
    src_h: nat,
    pix: int,
    tb_num: int,
    tb_den: int,
    dst_w: nat,
    dst_h: nat,
) -> Seq<char> {
    "buffer=width="@ + spec_decimal(src_w) + ":height="@ + spec_decimal(src_h) + ":pix_fmt="@
        + spec_format_name(pix) + ":time_base="@ + spec_decimal_i64(tb_num) + "/"@
        + spec_decimal_i64(tb_den) + "[in];"@ + (if device == DeviceKind::Cuda {
        "[in]hwupload_cuda,scale_cuda="@ + spec_decimal(dst_w) + ":"@ + spec_decimal(dst_h)
            + "[scaled];[scaled]hwdownload,format=rgba[out];"@
    } else {
        "[in]hwupload,scale_vt="@ + spec_decimal(dst_w) + ":"@ + spec_decimal(dst_h)
            + "[scaled];[scaled]format=rgba[out];"@
    }) + "[out]buffersink"@
}

fn format_name(pix: i32) -> (r: &'static str)
    ensures
        r@ == spec_format_name(pix as int),
{
    if pix == PIX_FMT_NV12 {
        "nv12"
    } else if pix == PIX_FMT_YUV420P {
        "yuv420p"
    } else {
        "nv12"
    }
}

/// Builds the self-contained graph description for one hardware backend.
///
/// Only CUDA and VideoToolbox have a transform chain in this form; any
/// other device type is refused.
pub fn create_graph_str(
    device: DeviceKind,
    original_width: u32,
    original_height: u32,
    pix_fmt: i32,
    time_base_num: i32,
    time_base_den: i32,
    target_width: u32,
    target_height: u32,
) -> (r: Result<String, MediaLibError>)
    ensures
        r is Ok <==> (device == DeviceKind::Cuda || device == DeviceKind::VideoToolbox),
        r matches Ok(s) ==> s@ == spec_graph_text(
            device,
            original_width as nat,
            original_height as nat,
            pix_fmt as int,
            time_base_num as int,
            time_base_den as int,
            target_width as nat,
            target_height as nat,
        ),
        r matches Err(e) ==> e matches MediaLibError::FFmpegError(m) && m@
            == "Unsupported hardware device type"@,
{
    if device == DeviceKind::Other {
        return Err(
            MediaLibError::FFmpegError(String::from_str("Unsupported hardware device type")),
        );
    }
    let sw = decimal_u64(original_width as u64);
    let sh = decimal_u64(original_height as u64);
    let tw = decimal_u64(target_width as u64);
    let th = decimal_u64(target_height as u64);
    let num = decimal_i64(time_base_num as i64);
    let den = decimal_i64(time_base_den as i64);
    let mut s = String::from_str("buffer=width=");
    s.append(sw.as_str());
    s.append(":height=");
    s.append(sh.as_str());
    s.append(":pix_fmt=");
    s.append(format_name(pix_fmt));
    s.append(":time_base=");
    s.append(num.as_str());
    s.append("/");
    s.append(den.as_str());
    s.append("[in];");
    if device == DeviceKind::Cuda {
        s.append("[in]hwupload_cuda,scale_cuda=");
        s.append(tw.as_str());
        s.append(":");
        s.append(th.as_str());
        s.append("[scaled];[scaled]hwdownload,format=rgba[out];");
    } else {
        s.append("[in]hwupload,scale_vt=");
        s.append(tw.as_str());
        s.append(":");
        s.append(th.as_str());
        s.append("[scaled];[scaled]format=rgba[out];");
    }
    s.append("[out]buffersink");
    Ok(s)
}

} // verus!
