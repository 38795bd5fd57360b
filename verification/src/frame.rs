//! The decoded-frame model: pixel planes, strides, and row packing.
//!
//! A frame is fully populated plain data: geometry, timestamps, flags and one
//! byte buffer per plane.  A plane's stride may exceed the meaningful bytes of
//! a row because of alignment padding, so row offsets always go through the
//! stride, never the width.

use vstd::prelude::*;

verus! {

/// Identifier of a pixel format, using the codec library's stable numbering.
pub const PIX_FMT_NONE: i32 = -1;

/// Planar YUV 4:2:0.
pub const PIX_FMT_YUV420P: i32 = 0;

/// Y plane followed by one interleaved UV plane.
pub const PIX_FMT_NV12: i32 = 23;

/// One colour/luma channel's buffer within a frame.
#[derive(Debug, Clone, PartialEq, Eq)]
#[verifier::ext_equal]
pub struct FramePlane {
    /// Byte offset between consecutive rows; at least `width_bytes`.
    pub stride: usize,
    /// Meaningful bytes in each row.
    pub width_bytes: usize,
    /// Number of rows.
    pub rows: usize,
    /// The plane's bytes, `stride * rows` of them.
    pub data: Vec<u8>,
}

impl FramePlane {
    /// A plane is well formed when its stride covers a full row and its
    /// buffer holds exactly `stride` bytes for each row.
    pub open spec fn wf(self) -> bool {
        &&& self.width_bytes <= self.stride
        &&& self.data@.len() == self.stride * self.rows
    }

    /// The meaningful bytes of row `y`, padding stripped.
    pub open spec fn spec_row(self, y: int) -> Seq<u8> {
        self.data@.subrange(y * self.stride, y * self.stride + self.width_bytes)
    }

    /// The meaningful bytes of the first `n` rows, concatenated.
    pub open spec fn spec_packed_to(self, n: int) -> Seq<u8>
        decreases n,
    {
        if n <= 0 {
            Seq::empty()
        } else {
            self.spec_packed_to(n - 1) + self.spec_row(n - 1)
        }
    }

    /// All meaningful bytes of the plane, row by row, padding stripped.
    pub open spec fn spec_packed(self) -> Seq<u8> {
        self.spec_packed_to(self.rows as int)
    }

    /// Builds a plane with no padding, every byte set to `fill`.
    pub fn new_tight(width_bytes: usize, rows: usize, fill: u8) -> (r: FramePlane)
        requires
            width_bytes * rows <= usize::MAX,
        ensures
            r.wf(),
            r.stride == width_bytes,
            r.width_bytes == width_bytes,
            r.rows == rows,
            r.data@.len() == width_bytes * rows,
            forall|i: int| 0 <= i < r.data@.len() ==> r.data@[i] == fill,
    {
        let total = width_bytes * rows;
        let mut data: Vec<u8> = Vec::new();
        let mut i: usize = 0;
        while i < total
            invariant
                i <= total,
                total == width_bytes * rows,
                data@.len() == i,
                forall|j: int| 0 <= j < i ==> data@[j] == fill,
            decreases total - i,
        {
            data.push(fill);
            i = i + 1;
        }
        FramePlane { stride: width_bytes, width_bytes, rows, data }
    }
}

proof fn lemma_row_mul_bounds(stride: int, rows: int, y: int)
    requires
        0 <= y < rows,
        0 <= stride,
    ensures
        y * stride + stride <= stride * rows,
        0 <= y * stride,
{
    assert(y * stride + stride <= stride * rows && 0 <= y * stride) by (nonlinear_arith)
        requires
            0 <= y < rows,
            0 <= stride,
    {
    }
}

/// Copies the meaningful bytes of every row of `p` into one contiguous
/// buffer, dropping the alignment padding that the stride may carry.
pub fn pack_plane(p: &FramePlane) -> (r: Vec<u8>)
    requires
        p.wf(),
    ensures
        r@ == p.spec_packed(),
        r@.len() == p.rows * p.width_bytes,
{
    let mut r: Vec<u8> = Vec::new();
    let mut y: usize = 0;
    let len = p.data.len();
    proof {
        assert(p.spec_packed_to(0) =~= Seq::<u8>::empty());
        lemma_packed_len(*p, 0);
    }
    while y < p.rows
        invariant
            p.wf(),
            y <= p.rows,
            len == p.data@.len(),
            r@ == p.spec_packed_to(y as int),
            r@.len() == y * p.width_bytes,
        decreases p.rows - y,
    {
        proof {
            lemma_row_mul_bounds(p.stride as int, p.rows as int, y as int);
        }
        let base = y * p.stride;
        let mut x: usize = 0;
        while x < p.width_bytes
            invariant
                p.wf(),
                y < p.rows,
                len == p.data@.len(),
                base == y * p.stride,
                base + p.stride <= p.data@.len(),
                x <= p.width_bytes,
                r@ == p.spec_packed_to(y as int) + p.data@.subrange(
                    base as int,
                    base + x as int,
                ),
            decreases p.width_bytes - x,
        {
            let b = p.data[base + x];
            r.push(b);
            proof {
                assert(p.data@.subrange(base as int, base + (x + 1) as int) =~= p.data@.subrange(
                    base as int,
                    base + x as int,
                ).push(p.data@[base + x]));
            }
            x = x + 1;
        }
        proof {
            assert(r@ =~= p.spec_packed_to(y as int + 1));
            lemma_packed_len(*p, y as int + 1);
        }
        y = y + 1;
    }
    r
}

/// The packed form of `n` rows holds `n * width_bytes` bytes.
pub proof fn lemma_packed_len(p: FramePlane, n: int)
    requires
        p.wf(),
        n <= p.rows,
    ensures
        n >= 0 ==> p.spec_packed_to(n).len() == n * p.width_bytes,
    decreases n,
{
    if n > 0 {
        lemma_packed_len(p, n - 1);
        lemma_row_mul_bounds(p.stride as int, p.rows as int, n - 1);
        assert(p.spec_packed_to(n) == p.spec_packed_to(n - 1) + p.spec_row(n - 1));
        assert(p.spec_row(n - 1).len() == p.width_bytes);
        assert((n - 1) * p.width_bytes + p.width_bytes == n * p.width_bytes) by (nonlinear_arith);
        assert(p.spec_packed_to(n).len() == n * p.width_bytes);
    } else if n == 0 {
        assert(p.spec_packed_to(0).len() == 0);
        assert(n * p.width_bytes == 0) by (nonlinear_arith)
            requires
                n == 0,
        {
        }
    }
}

/// One decoded picture, fully populated.
#[derive(Debug, Clone, PartialEq, Eq)]
#[verifier::ext_equal]
pub struct DecodedVideoFrame {
    pub width: u32,
    pub height: u32,
    /// Pixel format identifier.
    pub format: i32,
    /// Pixel planes; their number and geometry depend on `format`.
    pub planes: Vec<FramePlane>,
    /// Presentation timestamp.
    pub pts: i64,
    pub best_effort_timestamp: i64,
    pub pkt_dts: i64,
    pub pkt_duration: i64,
    /// Byte position of the frame's packet in the input.
    pub pkt_pos: i64,
    pub key_frame: bool,
    pub pict_type: i32,
    pub quality: i32,
    pub repeat_pict: i32,
    pub interlaced_frame: bool,
    pub top_field_first: bool,
    pub palette_has_changed: bool,
    pub sample_rate: i32,
}

/// The mathematical value of a plane: its geometry and its byte sequence.
#[verifier::ext_equal]
pub struct PlaneModel {
    pub stride: int,
    pub width_bytes: int,
    pub rows: int,
    pub data: Seq<u8>,
}

impl View for FramePlane {
    type V = PlaneModel;

    open spec fn view(&self) -> PlaneModel {
        PlaneModel {
            stride: self.stride as int,
            width_bytes: self.width_bytes as int,
            rows: self.rows as int,
            data: self.data@,
        }
    }
}

/// The mathematical value of a decoded frame: geometry, plane contents,
/// timing and flags.
#[verifier::ext_equal]
pub struct FrameModel {
    pub width: u32,
    pub height: u32,
    pub format: i32,
    pub planes: Seq<PlaneModel>,
    pub pts: i64,
    pub best_effort_timestamp: i64,
    pub pkt_dts: i64,
    pub pkt_duration: i64,
    pub pkt_pos: i64,
    pub key_frame: bool,
    pub pict_type: i32,
    pub quality: i32,
    pub repeat_pict: i32,
    pub interlaced_frame: bool,
    pub top_field_first: bool,
    pub palette_has_changed: bool,
    pub sample_rate: i32,
}

impl View for DecodedVideoFrame {
    type V = FrameModel;

    open spec fn view(&self) -> FrameModel {
        FrameModel {
            width: self.width,
            height: self.height,
            format: self.format,
            planes: self.planes@.map_values(|p: FramePlane| p@),
            pts: self.pts,
            best_effort_timestamp: self.best_effort_timestamp,
            pkt_dts: self.pkt_dts,
            pkt_duration: self.pkt_duration,
            pkt_pos: self.pkt_pos,
            key_frame: self.key_frame,
            pict_type: self.pict_type,
            quality: self.quality,
            repeat_pict: self.repeat_pict,
            interlaced_frame: self.interlaced_frame,
            top_field_first: self.top_field_first,
            palette_has_changed: self.palette_has_changed,
            sample_rate: self.sample_rate,
        }
    }
}

/// Width in bytes of a chroma row for 4:2:0 subsampling: half the luma
/// width, rounded up.
pub open spec fn spec_chroma_extent(w: int) -> int {
    (w + 1) / 2
}

impl DecodedVideoFrame {
    /// Every plane of the frame is well formed.
    pub open spec fn wf(self) -> bool {
        forall|i: int| 0 <= i < self.planes@.len() ==> (#[trigger] self.planes@[i]).wf()
    }

    /// The frame carries planar YUV 4:2:0 data with no row padding: a full
    /// resolution luma plane and two half-resolution chroma planes.
    pub open spec fn is_tight_yuv420p(self) -> bool {
        &&& self.format == PIX_FMT_YUV420P
        &&& self.planes@.len() == 3
        &&& self.planes@[0].width_bytes == self.width
        &&& self.planes@[0].rows == self.height
        &&& self.planes@[0].stride == self.width
        &&& self.planes@[1].width_bytes == spec_chroma_extent(self.width as int)
        &&& self.planes@[1].rows == spec_chroma_extent(self.height as int)
        &&& self.planes@[1].stride == self.planes@[1].width_bytes
        &&& self.planes@[2].width_bytes == spec_chroma_extent(self.width as int)
        &&& self.planes@[2].rows == spec_chroma_extent(self.height as int)
        &&& self.planes@[2].stride == self.planes@[2].width_bytes
    }
}

impl DecodedVideoFrame {
    /// Builds a padding-free planar YUV 4:2:0 frame of the given dimensions,
    /// each plane filled with a constant sample value and every metadata
    /// field zeroed.
    pub fn new_tight_yuv420p(width: u32, height: u32, luma: u8, cb: u8, cr: u8) -> (r:
        DecodedVideoFrame)
        requires
            width * height <= usize::MAX,
        ensures
            r.wf(),
            r.is_tight_yuv420p(),
            r.width == width,
            r.height == height,
            r.planes@[0].data@.len() == width * height,
            r.planes@[1].data@.len() == spec_chroma_extent(width as int) * spec_chroma_extent(
                height as int,
            ),
            r.planes@[2].data@.len() == spec_chroma_extent(width as int) * spec_chroma_extent(
                height as int,
            ),
            !r.key_frame,
            r.pts == 0,
            forall|i: int|
                0 <= i < r.planes@[0].data@.len() ==> r.planes@[0].data@[i] == luma,
            forall|i: int| 0 <= i < r.planes@[1].data@.len() ==> r.planes@[1].data@[i] == cb,
            forall|i: int| 0 <= i < r.planes@[2].data@.len() ==> r.planes@[2].data@[i] == cr,
    {
        let w = width as usize;
        let h = height as usize;
        let cw = w / 2 + w % 2;
        let ch = h / 2 + h % 2;
        proof {
            assert(w * h == width * height);
            assert(cw == spec_chroma_extent(width as int));
            assert(ch == spec_chroma_extent(height as int));
            assert(w == 0 ==> cw == 0);
            assert(h == 0 ==> ch == 0);
            assert(w >= 1 ==> cw <= w);
            assert(h >= 1 ==> ch <= h);
            assert(cw * ch <= w * h) by (nonlinear_arith)
                requires
                    0 <= cw,
                    0 <= ch,
                    cw <= w || cw == 0,
                    ch <= h || ch == 0,
                    0 <= w,
                    0 <= h,
            {
            }
        }
        let y_plane = FramePlane::new_tight(w, h, luma);
        let u_plane = FramePlane::new_tight(cw, ch, cb);
        let v_plane = FramePlane::new_tight(cw, ch, cr);
        let mut planes: Vec<FramePlane> = Vec::new();
        planes.push(y_plane);
        planes.push(u_plane);
        planes.push(v_plane);
        DecodedVideoFrame {
            width,
            height,
            format: PIX_FMT_YUV420P,
            planes,
            pts: 0,
            best_effort_timestamp: 0,
            pkt_dts: 0,
            pkt_duration: 0,
            pkt_pos: 0,
            key_frame: false,
            pict_type: 0,
            quality: 0,
            repeat_pict: 0,
            interlaced_frame: false,
            top_field_first: false,
            palette_has_changed: false,
            sample_rate: 0,
        }
    }
}

/// For a tight planar YUV 4:2:0 frame of width `W` and height `H`, the luma
/// plane holds exactly `W * H` bytes and each chroma plane holds exactly
/// `ceil(W / 2) * ceil(H / 2)` bytes.
pub proof fn lemma_yuv420p_plane_sizes(f: DecodedVideoFrame)
    requires
        f.wf(),
        f.is_tight_yuv420p(),
    ensures
        f.planes@[0].data@.len() == f.width * f.height,
        f.planes@[1].data@.len() == spec_chroma_extent(f.width as int) * spec_chroma_extent(
            f.height as int,
        ),
        f.planes@[2].data@.len() == spec_chroma_extent(f.width as int) * spec_chroma_extent(
            f.height as int,
        ),
{
    assert(f.planes@[0].wf());
    assert(f.planes@[1].wf());
    assert(f.planes@[2].wf());
}

/// Concatenates the meaningful bytes of the three planes of a planar frame,
/// padding stripped: the form the still-image compressor consumes.
pub fn pack_planar_frame(f: &DecodedVideoFrame) -> (r: Vec<u8>)
    requires
        f.wf(),
        f.planes@.len() == 3,
    ensures
        r@ == f.planes@[0].spec_packed() + f.planes@[1].spec_packed() + f.planes@[2].spec_packed(),
{
    let mut r = pack_plane(&f.planes[0]);
    let mut second = pack_plane(&f.planes[1]);
    let mut third = pack_plane(&f.planes[2]);
    r.append(&mut second);
    r.append(&mut third);
    r
}

impl DecodedVideoFrame {
    pub fn get_width(&self) -> (r: u32)
        ensures
            r == self.width,
    {
        self.width
    }

    pub fn get_height(&self) -> (r: u32)
        ensures
            r == self.height,
    {
        self.height
    }

    pub fn get_pts(&self) -> (r: i64)
        ensures
            r == self.pts,
    {
        self.pts
    }

    pub fn get_best_effort_timestamp(&self) -> (r: i64)
        ensures
            r == self.best_effort_timestamp,
    {
        self.best_effort_timestamp
    }

    pub fn get_pkt_dts(&self) -> (r: i64)
        ensures
            r == self.pkt_dts,
    {
        self.pkt_dts
    }

    pub fn get_pkt_duration(&self) -> (r: i64)
        ensures
            r == self.pkt_duration,
    {
        self.pkt_duration
    }

    pub fn get_pkt_pos(&self) -> (r: i64)
        ensures
            r == self.pkt_pos,
    {
        self.pkt_pos
    }

    /// The key-frame flag in the boundary's numeric form: 1 when set.
    pub fn get_key_frame(&self) -> (r: i32)
        ensures
            r == (if self.key_frame {
                1i32
            } else {
                0i32
            }),
    {
        if self.key_frame {
            1
        } else {
            0
        }
    }

    pub fn get_pict_type(&self) -> (r: i32)
        ensures
            r == self.pict_type,
    {
        self.pict_type
    }

    pub fn get_quality(&self) -> (r: i32)
        ensures
            r == self.quality,
    {
        self.quality
    }

    pub fn get_repeat_pict(&self) -> (r: i32)
        ensures
            r == self.repeat_pict,
    {
        self.repeat_pict
    }

    /// The interlace flag in the boundary's numeric form: 1 when set.
    pub fn get_interlaced_frame(&self) -> (r: i32)
        ensures
            r == (if self.interlaced_frame {
                1i32
            } else {
                0i32
            }),
    {
        if self.interlaced_frame {
            1
        } else {
            0
        }
    }

    /// The top-field-first flag in the boundary's numeric form: 1 when set.
    pub fn get_top_field_first(&self) -> (r: i32)
        ensures
            r == (if self.top_field_first {
                1i32
            } else {
                0i32
            }),
    {
        if self.top_field_first {
            1
        } else {
            0
        }
    }

    /// The palette-changed flag in the boundary's numeric form: 1 when set.
    pub fn get_palette_has_changed(&self) -> (r: i32)
        ensures
            r == (if self.palette_has_changed {
                1i32
            } else {
                0i32
            }),
    {
        if self.palette_has_changed {
            1
        } else {
            0
        }
    }

    pub fn get_sample_rate(&self) -> (r: i32)
        ensures
            r == self.sample_rate,
    {
        self.sample_rate
    }

    pub fn get_format(&self) -> (r: i32)
        ensures
            r == self.format,
    {
        self.format
    }

    /// How many planes the frame carries.
    pub fn plane_count(&self) -> (r: usize)
        ensures
            r == self.planes@.len(),
    {
        self.planes.len()
    }

    /// The byte buffer of plane `idx`.
    pub fn data(&self, idx: usize) -> (r: &Vec<u8>)
        requires
            idx < self.planes@.len(),
        ensures
            r@ == self.planes@[idx as int].data@,
    {
        &self.planes[idx].data
    }

    /// The stride of plane `idx`.
    pub fn stride(&self, idx: usize) -> (r: usize)
        requires
            idx < self.planes@.len(),
        ensures
            r == self.planes@[idx as int].stride,
    {
        self.planes[idx].stride
    }
}

/// Every plane's stride covers the meaningful bytes of a row: row offsets
/// computed from the stride never cut a row short.
pub proof fn lemma_stride_covers_rows(f: DecodedVideoFrame, i: int)
    requires
        f.wf(),
        0 <= i < f.planes@.len(),
    ensures
        f.planes@[i].stride >= f.planes@[i].width_bytes,
{
}

} // verus!
