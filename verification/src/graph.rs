//! The processing graph: topology plan, the transform it performs on a
//! frame, and the strict construction/teardown ordering of its resources.
//!
//! The graph is planned from the first decoded frame's geometry (dimensions
//! and format are unreliable before decode starts), scales and converts
//! every frame to the target, and is built from manually ordered resources
//! that must be released in reverse order on every exit path.

use vstd::prelude::*;
use vstd::seq_lib::*;
use crate::filters::DeviceKind;
use crate::filters::create_filter_str;
use crate::filters::spec_chain_text;
use crate::frame::DecodedVideoFrame;
use crate::frame::FrameModel;
use crate::frame::PIX_FMT_YUV420P;
use crate::frame::spec_chroma_extent;
use crate::negotiate::HardwareContext;
use crate::types::MediaLibError;

verus! {

/// What the processing graph promises of the frame it hands back for a
/// source frame: the target geometry, planar YUV 4:2:0 with no row
/// padding, and the source frame's timing and flags carried over
/// unchanged.  The sample values themselves are the scaler's work and are
/// not constrained here.
pub open spec fn spec_scaled_frame(tw: u32, th: u32, src: FrameModel, out: FrameModel) -> bool {
    &&& out.width == tw
    &&& out.height == th
    &&& out.format == PIX_FMT_YUV420P
    &&& out.planes.len() == 3
    &&& out.planes[0].width_bytes == tw && out.planes[0].stride == tw && out.planes[0].rows == th
    &&& out.planes[1].width_bytes == spec_chroma_extent(tw as int) && out.planes[1].stride
        == spec_chroma_extent(tw as int) && out.planes[1].rows == spec_chroma_extent(th as int)
    &&& out.planes[2].width_bytes == spec_chroma_extent(tw as int) && out.planes[2].stride
        == spec_chroma_extent(tw as int) && out.planes[2].rows == spec_chroma_extent(th as int)
    &&& forall|p: int|
        0 <= p < 3 ==> (#[trigger] out.planes[p]).data.len() == out.planes[p].stride
            * out.planes[p].rows
    &&& out.pts == src.pts
    &&& out.best_effort_timestamp == src.best_effort_timestamp
    &&& out.pkt_dts == src.pkt_dts
    &&& out.pkt_duration == src.pkt_duration
    &&& out.pkt_pos == src.pkt_pos
    &&& out.key_frame == src.key_frame
    &&& out.pict_type == src.pict_type
    &&& out.quality == src.quality
    &&& out.repeat_pict == src.repeat_pict
    &&& out.interlaced_frame == src.interlaced_frame
    &&& out.top_field_first == src.top_field_first
    &&& out.palette_has_changed == src.palette_has_changed
    &&& out.sample_rate == src.sample_rate
}

/// Any two frames the graph may hand back for the same source frame and
/// target agree on everything but their sample values: geometry, format,
/// plane layout, timing and flags.
pub proof fn lemma_scaled_frames_agree(
    tw: u32,
    th: u32,
    src: FrameModel,
    a: FrameModel,
    b: FrameModel,
)
    requires
        spec_scaled_frame(tw, th, src, a),
        spec_scaled_frame(tw, th, src, b),
    ensures
        a.width == b.width && a.height == b.height && a.format == b.format,
        a.planes.len() == b.planes.len(),
        forall|p: int|
            0 <= p < a.planes.len() ==> (#[trigger] a.planes[p]).stride == b.planes[p].stride
                && a.planes[p].width_bytes == b.planes[p].width_bytes && a.planes[p].rows
                == b.planes[p].rows,
        a.pts == b.pts && a.key_frame == b.key_frame,
        a.pkt_dts == b.pkt_dts && a.pkt_duration == b.pkt_duration && a.pkt_pos == b.pkt_pos,
{
}

/// Performs the model's stand-in for the graph's transform on one frame:
/// a frame of the target geometry with the metadata carried over.  The
/// sample values the real scaler would compute are not modelled; the
/// stand-in leaves them cleared.
pub fn scale_frame(tw: u32, th: u32, src: &DecodedVideoFrame) -> (r: DecodedVideoFrame)
    requires
        tw * th <= usize::MAX,
    ensures
        spec_scaled_frame(tw, th, src@, r@),
        r.wf(),
        r.is_tight_yuv420p(),
        r.width == tw,
        r.height == th,
{
    let mut out = DecodedVideoFrame::new_tight_yuv420p(tw, th, 0, 0, 0);
    out.pts = src.pts;
    out.best_effort_timestamp = src.best_effort_timestamp;
    out.pkt_dts = src.pkt_dts;
    out.pkt_duration = src.pkt_duration;
    out.pkt_pos = src.pkt_pos;
    out.key_frame = src.key_frame;
    out.pict_type = src.pict_type;
    out.quality = src.quality;
    out.repeat_pict = src.repeat_pict;
    out.interlaced_frame = src.interlaced_frame;
    out.top_field_first = src.top_field_first;
    out.palette_has_changed = src.palette_has_changed;
    out.sample_rate = src.sample_rate;
    proof {
        assert(out.planes@[0].wf() && out.planes@[1].wf() && out.planes@[2].wf());
        assert(out@.planes.len() == 3);
        assert(out@.planes[0] == out.planes@[0]@);
        assert(out@.planes[1] == out.planes@[1]@);
        assert(out@.planes[2] == out.planes@[2]@);
    }
    out
}

/// The configured processing graph: source-node geometry, the backend
/// chain, and the sink's target.  Built once per decoder, on the first
/// decoded frame; reused for every frame after that.
#[derive(Debug, Clone, PartialEq, Eq)]
pub struct FilterGraph {
    pub source_width: u32,
    pub source_height: u32,
    /// Pixel format of the frames the source node ingests.
    pub source_format: i32,
    pub time_base_num: i32,
    pub time_base_den: i32,
    pub target_width: u32,
    pub target_height: u32,
    /// The device session frames are routed through, when one exists.
    pub hardware: Option<HardwareContext>,
    /// The transform-chain description linked between source and sink.
    pub chain: String,
}

impl FilterGraph {
    /// The target geometry stays within addressable memory, so a frame of
    /// it can be materialised.
    pub open spec fn wf(self) -> bool {
        self.target_width * self.target_height <= usize::MAX
    }

    /// Plans the graph for the given source geometry and target: chooses
    /// the backend chain from the hardware session (the software scale
    /// without one) and records the source-node parameters.
    pub fn new(
        hw_context: Option<HardwareContext>,
        original_width: u32,
        original_height: u32,
        target_width: u32,
        target_height: u32,
        time_base_num: i32,
        time_base_den: i32,
        pix_fmt: i32,
    ) -> (r: Result<FilterGraph, MediaLibError>)
        requires
            target_width * target_height <= usize::MAX,
        ensures
            r is Ok,
            r matches Ok(g) ==> {
                &&& g.wf()
                &&& g.source_width == original_width
                &&& g.source_height == original_height
                &&& g.source_format == pix_fmt
                &&& g.time_base_num == time_base_num
                &&& g.time_base_den == time_base_den
                &&& g.target_width == target_width
                &&& g.target_height == target_height
                &&& g.hardware == hw_context
                &&& g.chain@ == spec_chain_text(
                    match hw_context {
                        Some(c) => Some(c.device_kind),
                        None => None,
                    },
                    target_width as nat,
                    target_height as nat,
                    match hw_context {
                        Some(c) => c.pix_fmt as int,
                        None => 0,
                    },
                )
            },
    {
        let device: Option<DeviceKind> = match &hw_context {
            Some(c) => Some(c.device_type()),
            None => None,
        };
        let device_format: Option<i32> = match &hw_context {
            Some(c) => Some(c.pixel_format()),
            None => None,
        };
        let chain = match create_filter_str(device, target_width, target_height, device_format) {
            Ok(s) => s,
            Err(e) => {
                return Err(e);
            },
        };
        Ok(
            FilterGraph {
                source_width: original_width,
                source_height: original_height,
                source_format: pix_fmt,
                time_base_num,
                time_base_den,
                target_width,
                target_height,
                hardware: hw_context,
                chain,
            },
        )
    }

    /// The model's stand-in for submitting one frame to the source node
    /// and retrieving the transformed frame from the sink node.
    pub fn process_frame(&self, input: &DecodedVideoFrame) -> (r: Result<
        DecodedVideoFrame,
        MediaLibError,
    >)
        requires
            self.wf(),
        ensures
            r matches Ok(f) ==> spec_scaled_frame(
                self.target_width,
                self.target_height,
                input@,
                f@,
            ) && f.wf() && f.is_tight_yuv420p() && f.width == self.target_width && f.height
                == self.target_height,
            r is Ok,
    {
        Ok(scale_frame(self.target_width, self.target_height, input))
    }
}

/// One resource class of the graph, acquired during construction in a fixed
/// order and owned until teardown.
#[derive(Debug, Clone, Copy, PartialEq, Eq, Structural)]
pub enum GraphResource {
    /// The graph allocation itself.
    GraphAlloc,
    /// The buffer-source node, with its parameter block.
    SourceNode,
    /// The device frame pool attached to the source when decoding on
    /// hardware.
    FramePool,
    /// The buffer-sink node.
    SinkNode,
    /// The nodes materialised by parsing and linking the chain text.
    ChainNodes,
}

/// Construction steps of the graph, in the order they run.
#[derive(Debug, Clone, Copy, PartialEq, Eq, Structural)]
pub enum BuildStage {
    Allocating,
    CreatingSource,
    CreatingFramePool,
    CreatingSink,
    LinkingChain,
    Validating,
    Ready,
    Failed,
}

/// The resource a successful step acquires, `None` for validation, which
/// allocates nothing.
pub open spec fn spec_stage_resource(s: BuildStage) -> Option<GraphResource> {
    match s {
        BuildStage::Allocating => Some(GraphResource::GraphAlloc),
        BuildStage::CreatingSource => Some(GraphResource::SourceNode),
        BuildStage::CreatingFramePool => Some(GraphResource::FramePool),
        BuildStage::CreatingSink => Some(GraphResource::SinkNode),
        BuildStage::LinkingChain => Some(GraphResource::ChainNodes),
        _ => None,
    }
}

/// The step that follows a successful one.
pub open spec fn spec_next_stage(s: BuildStage, hardware: bool) -> BuildStage {
    match s {
        BuildStage::Allocating => BuildStage::CreatingSource,
        BuildStage::CreatingSource => if hardware {
            BuildStage::CreatingFramePool
        } else {
            BuildStage::CreatingSink
        },
        BuildStage::CreatingFramePool => BuildStage::CreatingSink,
        BuildStage::CreatingSink => BuildStage::LinkingChain,
        BuildStage::LinkingChain => BuildStage::Validating,
        _ => BuildStage::Ready,
    }
}

/// Tracks the resources the graph construction has acquired so far, and
/// hands back the exact release order when a step fails or the graph is
/// dropped.
#[derive(Debug, Clone, PartialEq, Eq)]
pub struct GraphBuilder {
    /// Whether the plan routes through a hardware device (the frame-pool
    /// step only runs then).
    pub hardware: bool,
    pub stage: BuildStage,
    /// Resources acquired so far, in construction order.
    pub acquired: Vec<GraphResource>,
}

impl GraphBuilder {
    /// Starts a construction with nothing acquired.
    pub fn new(hardware: bool) -> (r: GraphBuilder)
        ensures
            r.hardware == hardware,
            r.stage == BuildStage::Allocating,
            r.acquired@.len() == 0,
    {
        GraphBuilder { hardware, stage: BuildStage::Allocating, acquired: Vec::new() }
    }

    /// Records the outcome of the current construction step.
    ///
    /// On success the step's resource is appended and construction moves
    /// on.  On failure every acquired resource is handed back for release,
    /// in reverse construction order, and nothing stays acquired: the
    /// failed construction owns nothing.
    pub fn advance(&mut self, step_succeeded: bool) -> (r: Option<Vec<GraphResource>>)
        requires
            old(self).stage != BuildStage::Ready,
            old(self).stage != BuildStage::Failed,
        ensures
            final(self).hardware == old(self).hardware,
            step_succeeded ==> {
                &&& r is None
                &&& final(self).stage == spec_next_stage(old(self).stage, old(self).hardware)
                &&& final(self).acquired@ == (match spec_stage_resource(old(self).stage) {
                    Some(res) => old(self).acquired@.push(res),
                    None => old(self).acquired@,
                })
            },
            !step_succeeded ==> {
                &&& r matches Some(teardown) && teardown@ == old(self).acquired@.reverse()
                &&& final(self).stage == BuildStage::Failed
                &&& final(self).acquired@.len() == 0
            },
    {
        if step_succeeded {
            match self.stage {
                BuildStage::Allocating => {
                    self.acquired.push(GraphResource::GraphAlloc);
                    self.stage = BuildStage::CreatingSource;
                },
                BuildStage::CreatingSource => {
                    self.acquired.push(GraphResource::SourceNode);
                    self.stage = if self.hardware {
                        BuildStage::CreatingFramePool
                    } else {
                        BuildStage::CreatingSink
                    };
                },
                BuildStage::CreatingFramePool => {
                    self.acquired.push(GraphResource::FramePool);
                    self.stage = BuildStage::CreatingSink;
                },
                BuildStage::CreatingSink => {
                    self.acquired.push(GraphResource::SinkNode);
                    self.stage = BuildStage::LinkingChain;
                },
                BuildStage::LinkingChain => {
                    self.acquired.push(GraphResource::ChainNodes);
                    self.stage = BuildStage::Validating;
                },
                _ => {
                    self.stage = BuildStage::Ready;
                },
            }
            None
        } else {
            self.stage = BuildStage::Failed;
            let teardown = reverse_resources(&self.acquired);
            self.acquired = Vec::new();
            Some(teardown)
        }
    }

    /// Hands back everything still acquired, in reverse construction
    /// order, for the owner's teardown.
    pub fn release_all(&mut self) -> (r: Vec<GraphResource>)
        ensures
            r@ == old(self).acquired@.reverse(),
            final(self).acquired@.len() == 0,
    {
        let teardown = reverse_resources(&self.acquired);
        self.acquired = Vec::new();
        teardown
    }
}

fn reverse_resources(v: &Vec<GraphResource>) -> (r: Vec<GraphResource>)
    ensures
        r@ == v@.reverse(),
{
    let mut r: Vec<GraphResource> = Vec::new();
    let mut i: usize = v.len();
    while i > 0
        invariant
            i <= v@.len(),
            r@.len() == v@.len() - i,
            forall|j: int| 0 <= j < r@.len() ==> r@[j] == v@[v@.len() - 1 - j],
        decreases i,
    {
        i = i - 1;
        r.push(v[i]);
    }
    proof {
        assert(r@ =~= v@.reverse());
    }
    r
}

/// Releasing in reverse order releases exactly the acquired resources:
/// every construct/teardown cycle returns the resource balance to zero, so
/// repeated cycles cannot grow resource usage.
pub proof fn lemma_teardown_releases_everything(acquired: Seq<GraphResource>)
    ensures
        acquired.reverse().to_multiset() == acquired.to_multiset(),
        acquired.reverse().len() == acquired.len(),
{
    acquired.lemma_reverse_to_multiset();
}

} // verus!
