//! The pull-based decode state machine.
//!
//! The decoder alternates receiving decoded frames with feeding compressed
//! packets, signals end of stream to the codec exactly once, drains the
//! codec's buffered frames afterwards, and reports exhaustion permanently
//! from then on.  Every decision — what to do with each codec outcome, when
//! to feed, when to drain, when a frame is routed through the processing
//! graph — is made here; the shell only performs the codec calls and hands
//! their outcomes back.

use vstd::prelude::*;
use crate::frame::DecodedVideoFrame;
use crate::frame::FrameModel;
use crate::graph::FilterGraph;
use crate::graph::spec_scaled_frame;
use crate::negotiate::HardwareContext;
use crate::text::decimal_i64;
use crate::text::spec_decimal_i64;
use crate::types::MediaLibError;

verus! {

/// The status code with which the codec asks for more input before it can
/// hand out another frame.
pub const NEED_MORE_DATA: i32 = 35;

/// Decode progress: streaming packets, draining buffered frames after end
/// of stream, exhausted for good, or stopped by a fatal error.
#[derive(Debug, Clone, Copy, PartialEq, Eq, Structural)]
pub enum DecoderPhase {
    /// Packets are still being fed from the source.
    Streaming,
    /// End of stream was signalled; buffered frames are being drained.
    DrainingDecoder,
    /// The codec reported that nothing remains: no frame will ever follow.
    Exhausted,
    /// A fatal error ended this decoder instance.
    Failed,
}

/// What one receive attempt against the codec produced.
#[derive(Debug, Clone, PartialEq, Eq)]
pub enum ReceiveOutcome {
    /// A decoded frame is ready.
    Decoded(DecodedVideoFrame),
    /// A status code: `NEED_MORE_DATA` asks for input, any other code is
    /// fatal to this decoder.
    StatusCode { errno: i32 },
    /// The codec reports that the stream is fully drained.
    EndOfStream,
    /// Any other failure, carrying its message.
    OtherError(String),
}

/// What the state machine asks its driver to do next.
#[derive(Debug, PartialEq, Eq)]
pub enum DecodeAction {
    /// Hand this frame to the caller as the call's result.
    Emit(DecodedVideoFrame),
    /// Route this frame through the processing graph — instantiating the
    /// plan just recorded in `graph` if no graph is built yet — and hand
    /// the outcome to `processed_frame`.
    ProcessFrame(DecodedVideoFrame),
    /// Feed the next packet of the selected stream, then receive again.
    FeedPacket,
    /// The stream is exhausted: the call's result is "no more frames".
    Finished,
    /// A fatal error: return it, and accept no further work.
    Fatal(MediaLibError),
}

/// The decoder: the state machine's data, exclusively owned by one driver.
#[derive(Debug, Clone, PartialEq, Eq)]
pub struct HardwareAcceleratedVideoDecoder {
    pub phase: DecoderPhase,
    /// Index of the selected video stream; only its packets are fed.
    pub video_stream_index: usize,
    /// Target dimensions when scaling is requested; `None` leaves frames
    /// at their decoded size.
    pub target: Option<(u32, u32)>,
    /// The negotiated hardware session, if probing found one; never
    /// replaced for this decoder's lifetime.
    pub hardware: Option<HardwareContext>,
    /// The processing graph, planned lazily on the first decoded frame and
    /// reused for every frame after it.
    pub graph: Option<FilterGraph>,
    /// Time base of the selected stream, for the graph's source node.
    pub time_base_num: i32,
    pub time_base_den: i32,
}

impl HardwareAcceleratedVideoDecoder {
    /// The target geometry is materialisable and the graph, once planned,
    /// matches the requested target.
    pub open spec fn wf(self) -> bool {
        &&& self.target matches Some(d) ==> d.0 * d.1 <= usize::MAX
        &&& self.graph matches Some(g) ==> {
            &&& g.wf()
            &&& self.target == Some((g.target_width, g.target_height))
            &&& g.hardware == self.hardware
        }
        &&& self.graph is Some ==> self.target is Some
    }

    /// A decoder in its initial state: streaming, no graph planned yet.
    pub fn new(
        video_stream_index: usize,
        target: Option<(u32, u32)>,
        hardware: Option<HardwareContext>,
        time_base_num: i32,
        time_base_den: i32,
    ) -> (r: HardwareAcceleratedVideoDecoder)
        requires
            target matches Some(d) ==> d.0 * d.1 <= usize::MAX,
        ensures
            r.wf(),
            r.phase == DecoderPhase::Streaming,
            r.video_stream_index == video_stream_index,
            r.target == target,
            r.hardware == hardware,
            r.graph is None,
            r.time_base_num == time_base_num,
            r.time_base_den == time_base_den,
    {
        HardwareAcceleratedVideoDecoder {
            phase: DecoderPhase::Streaming,
            video_stream_index,
            target,
            hardware,
            graph: None,
            time_base_num,
            time_base_den,
        }
    }

    /// Whether a demuxed packet of stream `stream_index` is fed to the
    /// codec or skipped: only the selected video stream's packets count.
    pub fn wants_packet(&self, stream_index: usize) -> (r: bool)
        ensures
            r <==> stream_index == self.video_stream_index,
    {
        stream_index == self.video_stream_index
    }

    /// The packet source is exhausted while streaming: end of stream is
    /// signalled to the codec (exactly once) and draining begins.
    pub fn end_of_source(&mut self)
        requires
            old(self).phase == DecoderPhase::Streaming,
        ensures
            *final(self) == (HardwareAcceleratedVideoDecoder {
                phase: DecoderPhase::DrainingDecoder,
                ..*old(self)
            }),
    {
        self.phase = DecoderPhase::DrainingDecoder;
    }

    /// The shell could not build or run the real processing graph: the
    /// configuration error is fatal to this decoder.
    pub fn graph_failed(&mut self, message: String) -> (r: MediaLibError)
        ensures
            *final(self) == (HardwareAcceleratedVideoDecoder {
                phase: DecoderPhase::Failed,
                ..*old(self)
            }),
            r matches MediaLibError::FFmpegError(m) && m@ == message@,
    {
        self.phase = DecoderPhase::Failed;
        MediaLibError::FFmpegError(message)
    }

    /// The shell could not feed a packet or signal end of stream: like
    /// every other decode error, this is fatal to the instance.
    pub fn feed_failed(&mut self, message: String) -> (r: MediaLibError)
        ensures
            *final(self) == (HardwareAcceleratedVideoDecoder {
                phase: DecoderPhase::Failed,
                ..*old(self)
            }),
            r matches MediaLibError::FFmpegError(m) && m@ == message@,
    {
        self.phase = DecoderPhase::Failed;
        MediaLibError::FFmpegError(message)
    }

    /// Decides what one codec outcome means, performs the resulting state
    /// transition, and names the driver's next action.
    ///
    /// A decoded frame is emitted directly when no scaling is requested;
    /// with scaling, the graph is planned on the first frame — recording
    /// that frame's geometry and format and the stream time base — and the
    /// frame is handed back for routing through the graph.
    /// `NEED_MORE_DATA` asks for a packet while streaming and means
    /// exhaustion once end of stream was signalled.  End of stream from
    /// the codec is final.  Everything else is fatal.
    pub fn step(&mut self, outcome: ReceiveOutcome) -> (r: DecodeAction)
        requires
            old(self).wf(),
            old(self).phase == DecoderPhase::Streaming || old(self).phase
                == DecoderPhase::DrainingDecoder,
        ensures
            final(self).wf(),
            final(self).video_stream_index == old(self).video_stream_index,
            final(self).target == old(self).target,
            final(self).hardware == old(self).hardware,
            final(self).time_base_num == old(self).time_base_num,
            final(self).time_base_den == old(self).time_base_den,
            old(self).graph is Some ==> final(self).graph == old(self).graph,
            outcome matches ReceiveOutcome::Decoded(f) ==> {
                &&& final(self).phase == old(self).phase
                &&& old(self).target is None ==> r == DecodeAction::Emit(f) && final(self).graph
                    == old(self).graph
                &&& old(self).target matches Some(d) ==> {
                    &&& r == DecodeAction::ProcessFrame(f)
                    &&& final(self).graph is Some
                    &&& old(self).graph is None ==> (final(self).graph matches Some(g) && {
                        &&& g.source_width == f.width
                        &&& g.source_height == f.height
                        &&& g.source_format == f.format
                        &&& g.time_base_num == old(self).time_base_num
                        &&& g.time_base_den == old(self).time_base_den
                        &&& g.target_width == d.0
                        &&& g.target_height == d.1
                        &&& g.hardware == old(self).hardware
                    })
                }
            },
            outcome matches ReceiveOutcome::StatusCode { errno } ==> {
                &&& errno == NEED_MORE_DATA && old(self).phase == DecoderPhase::Streaming ==> r
                    == DecodeAction::FeedPacket && *final(self) == *old(self)
                &&& errno == NEED_MORE_DATA && old(self).phase == DecoderPhase::DrainingDecoder
                    ==> r == DecodeAction::Finished && final(self).phase == DecoderPhase::Exhausted
                    && final(self).graph == old(self).graph
                &&& errno != NEED_MORE_DATA ==> {
                    &&& final(self).phase == DecoderPhase::Failed
                    &&& r matches DecodeAction::Fatal(e) && e matches MediaLibError::FFmpegError(m)
                        && m@ == "Failed to receive frame: "@ + spec_decimal_i64(errno as int)
                    &&& final(self).graph == old(self).graph
                }
            },
            outcome == ReceiveOutcome::EndOfStream ==> r == DecodeAction::Finished
                && final(self).phase == DecoderPhase::Exhausted && final(self).graph == old(
                self,
            ).graph,
            outcome matches ReceiveOutcome::OtherError(msg) ==> {
                &&& final(self).phase == DecoderPhase::Failed
                &&& r matches DecodeAction::Fatal(e) && e matches MediaLibError::FFmpegError(m)
                    && m@ == msg@
                &&& final(self).graph == old(self).graph
            },
    {
        match outcome {
            ReceiveOutcome::Decoded(f) => {
                match self.target {
                    None => DecodeAction::Emit(f),
                    Some((tw, th)) => {
                        if self.graph.is_none() {
                            match FilterGraph::new(
                                self.hardware,
                                f.width,
                                f.height,
                                tw,
                                th,
                                self.time_base_num,
                                self.time_base_den,
                                f.format,
                            ) {
                                Ok(g) => {
                                    self.graph = Some(g);
                                },
                                Err(e) => {
                                    // The plan itself cannot fail; only the
                                    // shell's instantiation of it can, which
                                    // it reports through `graph_failed`.
                                    self.phase = DecoderPhase::Failed;
                                    return DecodeAction::Fatal(e);
                                },
                            }
                        }
                        DecodeAction::ProcessFrame(f)
                    },
                }
            },
            ReceiveOutcome::StatusCode { errno } => {
                if errno == NEED_MORE_DATA {
                    if self.phase == DecoderPhase::Streaming {
                        DecodeAction::FeedPacket
                    } else {
                        self.phase = DecoderPhase::Exhausted;
                        DecodeAction::Finished
                    }
                } else {
                    self.phase = DecoderPhase::Failed;
                    let mut m = String::from_str("Failed to receive frame: ");
                    let digits = decimal_i64(errno as i64);
                    m.append(digits.as_str());
                    DecodeAction::Fatal(MediaLibError::FFmpegError(m))
                }
            },
            ReceiveOutcome::EndOfStream => {
                self.phase = DecoderPhase::Exhausted;
                DecodeAction::Finished
            },
            ReceiveOutcome::OtherError(msg) => {
                self.phase = DecoderPhase::Failed;
                DecodeAction::Fatal(MediaLibError::FFmpegError(msg))
            },
        }
    }

    /// Takes what the processing graph handed back for a routed frame.
    ///
    /// A frame of the target geometry passes through; a frame of any other
    /// geometry, and any graph failure, is fatal to this decoder.
    pub fn processed_frame(&mut self, graph_result: Result<DecodedVideoFrame, MediaLibError>) -> (r:
        Result<DecodedVideoFrame, MediaLibError>)
        requires
            old(self).wf(),
            old(self).target is Some,
        ensures
            final(self).wf(),
            final(self).graph == old(self).graph,
            ({
                let d = old(self).target->0;
                &&& graph_result matches Ok(f) ==> {
                    &&& f.width == d.0 && f.height == d.1 ==> r == Ok::<
                        DecodedVideoFrame,
                        MediaLibError,
                    >(f) && *final(self) == *old(self)
                    &&& !(f.width == d.0 && f.height == d.1) ==> {
                        &&& *final(self) == (HardwareAcceleratedVideoDecoder {
                            phase: DecoderPhase::Failed,
                            ..*old(self)
                        })
                        &&& r matches Err(e) && e matches MediaLibError::FFmpegError(m) && m@
                            == "Processing graph returned a frame of the wrong size"@
                    }
                }
                &&& graph_result matches Err(e0) ==> r == Err::<
                    DecodedVideoFrame,
                    MediaLibError,
                >(e0) && *final(self) == (HardwareAcceleratedVideoDecoder {
                    phase: DecoderPhase::Failed,
                    ..*old(self)
                })
            }),
    {
        match graph_result {
            Ok(f) => {
                match self.target {
                    Some((tw, th)) => {
                        if f.width == tw && f.height == th {
                            Ok(f)
                        } else {
                            self.phase = DecoderPhase::Failed;
                            Err(
                                MediaLibError::FFmpegError(
                                    String::from_str(
                                        "Processing graph returned a frame of the wrong size",
                                    ),
                                ),
                            )
                        }
                    },
                    None => {
                        // Unreachable: routing happens only with a target.
                        self.phase = DecoderPhase::Failed;
                        Err(
                            MediaLibError::UnknownError(
                                String::from_str("Processing without a target"),
                            ),
                        )
                    },
                }
            },
            Err(e) => {
                self.phase = DecoderPhase::Failed;
                Err(e)
            },
        }
    }
}

/// Wraps the demuxed input: the stream index of each packet, in delivery
/// order, and how far delivery has advanced.
#[derive(Debug, Clone, PartialEq, Eq)]
pub struct PacketSource {
    /// The stream index of each demuxed packet.
    pub packets: Vec<usize>,
    /// Position of the next packet to deliver.
    pub pos: usize,
}

impl PacketSource {
    pub open spec fn wf(self) -> bool {
        self.pos <= self.packets@.len()
    }
}

/// Position of the next packet of stream `vid` at or after `pos`, or the
/// packet count when none remains.
pub open spec fn spec_next_video(packets: Seq<usize>, pos: int, vid: usize) -> int
    decreases packets.len() - pos,
{
    if pos < 0 || pos >= packets.len() {
        packets.len() as int
    } else if packets[pos] == vid {
        pos
    } else {
        spec_next_video(packets, pos + 1, vid)
    }
}

fn next_video_position(packets: &Vec<usize>, pos: usize, vid: usize) -> (r: usize)
    requires
        pos <= packets@.len(),
    ensures
        r == spec_next_video(packets@, pos as int, vid),
        pos <= r <= packets@.len(),
        r < packets@.len() ==> packets@[r as int] == vid,
{
    let mut q = pos;
    while q < packets.len() && packets[q] != vid
        invariant
            pos <= q <= packets@.len(),
            spec_next_video(packets@, pos as int, vid) == spec_next_video(packets@, q as int, vid),
        decreases packets@.len() - q,
    {
        q = q + 1;
    }
    q
}

/// How a frame the decoder hands out relates to the decoded frame it came
/// from: routed through the processing graph when scaling is requested,
/// unchanged otherwise.
pub open spec fn spec_emitted_matches(
    target: Option<(u32, u32)>,
    src: FrameModel,
    out: FrameModel,
) -> bool {
    match target {
        Some(d) => spec_scaled_frame(d.0, d.1, src, out),
        None => out == src,
    }
}

/// The sequence of decoded frames a run over the given codec replies and
/// packet source reaches, starting from packet position `ppos` with
/// `draining` telling whether end of stream was already signalled.
///
/// These are the frames as the codec hands them out; what the caller
/// receives for each is fixed by `spec_emitted_matches`.  After the last
/// of them, only exhaustion or the stopping error follows, forever.
pub open spec fn spec_yields(
    replies: Seq<ReceiveOutcome>,
    packets: Seq<usize>,
    ppos: int,
    vid: usize,
    draining: bool,
) -> Seq<FrameModel>
    decreases replies.len(),
{
    if replies.len() == 0 {
        Seq::empty()
    } else {
        let rest = replies.drop_first();
        match replies[0] {
            ReceiveOutcome::Decoded(f) => seq![f@] + spec_yields(rest, packets, ppos, vid, draining),
            ReceiveOutcome::StatusCode { errno } => {
                if errno != NEED_MORE_DATA {
                    Seq::empty()
                } else if draining {
                    Seq::empty()
                } else {
                    let q = spec_next_video(packets, ppos, vid);
                    if q < packets.len() {
                        spec_yields(rest, packets, q + 1, vid, false)
                    } else {
                        spec_yields(rest, packets, ppos, vid, true)
                    }
                }
            },
            ReceiveOutcome::EndOfStream => Seq::empty(),
            ReceiveOutcome::OtherError(_) => Seq::empty(),
        }
    }
}

/// How a decode run ends, as a mathematical value.
pub enum StopModel {
    /// The stream ran out; exhaustion is permanent.
    CleanExhaustion,
    /// The codec returned a fatal status code.
    StatusFailure { errno: i32 },
    /// The codec failed with this message.
    MessageFailure { message: Seq<char> },
}

/// How the run for the given codec replies and packet source ends: clean
/// exhaustion, or the exact failure that stops it.
pub open spec fn spec_stop(
    replies: Seq<ReceiveOutcome>,
    packets: Seq<usize>,
    ppos: int,
    vid: usize,
    draining: bool,
) -> StopModel
    decreases replies.len(),
{
    if replies.len() == 0 {
        StopModel::CleanExhaustion
    } else {
        let rest = replies.drop_first();
        match replies[0] {
            ReceiveOutcome::Decoded(_) => spec_stop(rest, packets, ppos, vid, draining),
            ReceiveOutcome::StatusCode { errno } => {
                if errno != NEED_MORE_DATA {
                    StopModel::StatusFailure { errno }
                } else if draining {
                    StopModel::CleanExhaustion
                } else {
                    let q = spec_next_video(packets, ppos, vid);
                    if q < packets.len() {
                        spec_stop(rest, packets, q + 1, vid, false)
                    } else {
                        spec_stop(rest, packets, ppos, vid, true)
                    }
                }
            },
            ReceiveOutcome::EndOfStream => StopModel::CleanExhaustion,
            ReceiveOutcome::OtherError(m) => StopModel::MessageFailure { message: m@ },
        }
    }
}

/// The phases in which a decoder still does work.
pub open spec fn spec_live(phase: DecoderPhase) -> bool {
    phase == DecoderPhase::Streaming || phase == DecoderPhase::DrainingDecoder
}

/// Every frame the codec hands out is well formed: each plane's stride
/// covers its rows and its buffer is fully allocated.
pub open spec fn spec_frames_wf(replies: Seq<ReceiveOutcome>) -> bool {
    forall|i: int|
        0 <= i < replies.len() ==> ((#[trigger] replies[i]) matches ReceiveOutcome::Decoded(f)
            ==> f.wf())
}

impl HardwareAcceleratedVideoDecoder {
    /// One pull against a modelled codec whose successive receive outcomes
    /// are `codec_replies` (consumed from the front) and a packet source.
    ///
    /// Yields the next frame of the run, `None` at exhaustion — stably: an
    /// exhausted or failed decoder never yields again and changes nothing.
    /// A fatal outcome is returned as the exact error the run's stopping
    /// condition names, and ends this decoder.
    pub fn get_frame(
        &mut self,
        codec_replies: &mut Vec<ReceiveOutcome>,
        source: &mut PacketSource,
    ) -> (r: Option<Result<DecodedVideoFrame, MediaLibError>>)
        requires
            old(self).wf(),
            old(source).wf(),
        ensures
            final(self).wf(),
            final(source).wf(),
            final(self).video_stream_index == old(self).video_stream_index,
            final(self).target == old(self).target,
            final(self).hardware == old(self).hardware,
            final(self).time_base_num == old(self).time_base_num,
            final(self).time_base_den == old(self).time_base_den,
            old(self).graph is Some ==> final(self).graph == old(self).graph,
            final(source).packets@ == old(source).packets@,
            final(codec_replies)@.len() <= old(codec_replies)@.len(),
            spec_frames_wf(old(codec_replies)@) ==> spec_frames_wf(final(codec_replies)@),
            !spec_live(old(self).phase) ==> r is None && *final(self) == *old(self)
                && *final(source) == *old(source) && final(codec_replies)@ == old(codec_replies)@,
            spec_live(old(self).phase) ==> {
                let y0 = spec_yields(
                    old(codec_replies)@,
                    old(source).packets@,
                    old(source).pos as int,
                    old(self).video_stream_index,
                    old(self).phase == DecoderPhase::DrainingDecoder,
                );
                let s0 = spec_stop(
                    old(codec_replies)@,
                    old(source).packets@,
                    old(source).pos as int,
                    old(self).video_stream_index,
                    old(self).phase == DecoderPhase::DrainingDecoder,
                );
                &&& r is None ==> final(self).phase == DecoderPhase::Exhausted && y0
                    == Seq::<FrameModel>::empty() && s0 == StopModel::CleanExhaustion
                &&& r matches Some(Ok(f)) ==> {
                    &&& spec_live(final(self).phase)
                    &&& y0.len() >= 1
                    &&& spec_emitted_matches(old(self).target, y0[0], f@)
                    &&& spec_yields(
                        final(codec_replies)@,
                        final(source).packets@,
                        final(source).pos as int,
                        final(self).video_stream_index,
                        final(self).phase == DecoderPhase::DrainingDecoder,
                    ) == y0.drop_first()
                    &&& s0 == spec_stop(
                        final(codec_replies)@,
                        final(source).packets@,
                        final(source).pos as int,
                        final(self).video_stream_index,
                        final(self).phase == DecoderPhase::DrainingDecoder,
                    )
                    &&& final(codec_replies)@.len() < old(codec_replies)@.len()
                    &&& old(self).target matches Some(d) ==> f.width == d.0 && f.height == d.1
                    &&& spec_frames_wf(old(codec_replies)@) ==> f.wf()
                    &&& old(self).target matches Some(d) ==> (old(self).graph is None
                        ==> (final(self).graph matches Some(g) && {
                        &&& g.source_width == y0[0].width
                        &&& g.source_height == y0[0].height
                        &&& g.source_format == y0[0].format
                        &&& g.time_base_num == old(self).time_base_num
                        &&& g.time_base_den == old(self).time_base_den
                        &&& g.target_width == d.0
                        &&& g.target_height == d.1
                        &&& g.hardware == old(self).hardware
                    }))
                }
                &&& r matches Some(Err(e)) ==> {
                    &&& final(self).phase == DecoderPhase::Failed
                    &&& y0 == Seq::<FrameModel>::empty()
                    &&& !(s0 is CleanExhaustion)
                    &&& s0 matches StopModel::StatusFailure { errno } ==> e
                        matches MediaLibError::FFmpegError(m) && m@
                        == "Failed to receive frame: "@ + spec_decimal_i64(errno as int)
                    &&& s0 matches StopModel::MessageFailure { message } ==> e
                        matches MediaLibError::FFmpegError(m) && m@ == message
                }
            },
    {
        match self.phase {
            DecoderPhase::Exhausted => {
                return None;
            },
            DecoderPhase::Failed => {
                return None;
            },
            _ => {},
        }
        let ghost y0 = spec_yields(
            codec_replies@,
            source.packets@,
            source.pos as int,
            self.video_stream_index,
            self.phase == DecoderPhase::DrainingDecoder,
        );
        let ghost s0 = spec_stop(
            codec_replies@,
            source.packets@,
            source.pos as int,
            self.video_stream_index,
            self.phase == DecoderPhase::DrainingDecoder,
        );
        loop
            invariant
                self.wf(),
                source.wf(),
                spec_live(self.phase),
                spec_live(old(self).phase),
                self.video_stream_index == old(self).video_stream_index,
                self.target == old(self).target,
                self.hardware == old(self).hardware,
                self.time_base_num == old(self).time_base_num,
                self.time_base_den == old(self).time_base_den,
                old(self).graph is Some ==> self.graph == old(self).graph,
                old(self).graph is None ==> self.graph is None,
                source.packets@ == old(source).packets@,
                codec_replies@.len() <= old(codec_replies)@.len(),
                spec_frames_wf(old(codec_replies)@) ==> spec_frames_wf(codec_replies@),
                y0 == spec_yields(
                    old(codec_replies)@,
                    old(source).packets@,
                    old(source).pos as int,
                    old(self).video_stream_index,
                    old(self).phase == DecoderPhase::DrainingDecoder,
                ),
                s0 == spec_stop(
                    old(codec_replies)@,
                    old(source).packets@,
                    old(source).pos as int,
                    old(self).video_stream_index,
                    old(self).phase == DecoderPhase::DrainingDecoder,
                ),
                y0 == spec_yields(
                    codec_replies@,
                    source.packets@,
                    source.pos as int,
                    self.video_stream_index,
                    self.phase == DecoderPhase::DrainingDecoder,
                ),
                s0 == spec_stop(
                    codec_replies@,
                    source.packets@,
                    source.pos as int,
                    self.video_stream_index,
                    self.phase == DecoderPhase::DrainingDecoder,
                ),
            decreases codec_replies@.len(),
        {
            if codec_replies.len() == 0 {
                // The modelled codec has nothing more to say: the stream
                // is drained.
                self.phase = DecoderPhase::Exhausted;
                return None;
            }
            let ghost prev = codec_replies@;
            let ghost ppos0 = source.pos as int;
            let ghost draining0 = self.phase == DecoderPhase::DrainingDecoder;
            let ghost vid = self.video_stream_index;
            let ghost target = self.target;
            let outcome = codec_replies.remove(0);
            let ghost out0 = outcome;
            proof {
                assert(codec_replies@ =~= prev.drop_first());
                if spec_frames_wf(prev) {
                    assert forall|k: int| 0 <= k < codec_replies@.len() implies ((
                    #[trigger] codec_replies@[k]) matches ReceiveOutcome::Decoded(ff) ==> ff.wf())
                        by {
                        assert(codec_replies@[k] == prev[k + 1]);
                    }
                }
            }
            match self.step(outcome) {
                DecodeAction::Emit(f) => {
                    proof {
                        assert(out0 is Decoded) by {
                            match out0 {
                                ReceiveOutcome::Decoded(_) => {},
                                ReceiveOutcome::StatusCode { errno } => {
                                    assert(false);
                                },
                                ReceiveOutcome::EndOfStream => {
                                    assert(false);
                                },
                                ReceiveOutcome::OtherError(_) => {
                                    assert(false);
                                },
                            }
                        }
                        let df = out0->Decoded_0;
                        assert(spec_yields(prev, source.packets@, ppos0, vid, draining0)
                            == seq![df@] + spec_yields(
                            prev.drop_first(),
                            source.packets@,
                            ppos0,
                            vid,
                            draining0,
                        ));
                        assert(y0[0] == df@);
                        assert(y0.drop_first() =~= spec_yields(
                            prev.drop_first(),
                            source.packets@,
                            ppos0,
                            vid,
                            draining0,
                        ));
                        assert(spec_stop(prev, source.packets@, ppos0, vid, draining0)
                            == spec_stop(prev.drop_first(), source.packets@, ppos0, vid, draining0));
                        // Without scaling the frame passes through as is.
                        assert(target is None && f == df);
                        if spec_frames_wf(prev) {
                            assert(prev[0] matches ReceiveOutcome::Decoded(ff) ==> ff.wf());
                            assert(f.wf());
                        }
                    }
                    return Some(Ok(f));
                },
                DecodeAction::ProcessFrame(f) => {
                    proof {
                        assert(out0 is Decoded && target is Some) by {
                            match out0 {
                                ReceiveOutcome::Decoded(_) => {},
                                ReceiveOutcome::StatusCode { errno } => {
                                    assert(false);
                                },
                                ReceiveOutcome::EndOfStream => {
                                    assert(false);
                                },
                                ReceiveOutcome::OtherError(_) => {
                                    assert(false);
                                },
                            }
                        }
                        let df = out0->Decoded_0;
                        assert(spec_yields(prev, source.packets@, ppos0, vid, draining0)
                            == seq![df@] + spec_yields(
                            prev.drop_first(),
                            source.packets@,
                            ppos0,
                            vid,
                            draining0,
                        ));
                        assert(y0[0] == df@);
                        assert(y0.drop_first() =~= spec_yields(
                            prev.drop_first(),
                            source.packets@,
                            ppos0,
                            vid,
                            draining0,
                        ));
                        assert(spec_stop(prev, source.packets@, ppos0, vid, draining0)
                            == spec_stop(prev.drop_first(), source.packets@, ppos0, vid, draining0));
                        assert(f == df);
                    }
                    // The model stands in for the graph: a frame of the
                    // target geometry with the metadata carried over.
                    let graph_result = match &self.graph {
                        Some(g) => g.process_frame(&f),
                        None => {
                            // Unreachable: the graph was just planned.
                            Err(
                                MediaLibError::UnknownError(
                                    String::from_str("Processing graph missing"),
                                ),
                            )
                        },
                    };
                    match self.processed_frame(graph_result) {
                        Ok(out) => {
                            return Some(Ok(out));
                        },
                        Err(e) => {
                            // Unreachable: the model's graph returns the
                            // target geometry.
                            return Some(Err(e));
                        },
                    }
                },
                DecodeAction::FeedPacket => {
                    proof {
                        assert(out0 matches ReceiveOutcome::StatusCode { errno } && errno
                            == NEED_MORE_DATA) by {
                            match out0 {
                                ReceiveOutcome::Decoded(_) => {
                                    assert(false);
                                },
                                ReceiveOutcome::StatusCode { errno } => {},
                                ReceiveOutcome::EndOfStream => {
                                    assert(false);
                                },
                                ReceiveOutcome::OtherError(_) => {
                                    assert(false);
                                },
                            }
                        }
                        assert(!draining0);
                    }
                    let q = next_video_position(
                        &source.packets,
                        source.pos,
                        self.video_stream_index,
                    );
                    if q < source.packets.len() {
                        // Feed the packet at `q`; the codec model absorbs
                        // it and the next receive is attempted.
                        source.pos = q + 1;
                    } else {
                        // The source is exhausted: signal end of stream
                        // and drain from now on.
                        self.end_of_source();
                    }
                },
                DecodeAction::Finished => {
                    proof {
                        assert(spec_yields(prev, source.packets@, ppos0, vid, draining0)
                            =~= Seq::<FrameModel>::empty()) by {
                            match out0 {
                                ReceiveOutcome::Decoded(_) => {
                                    assert(false);
                                },
                                ReceiveOutcome::StatusCode { errno } => {},
                                ReceiveOutcome::EndOfStream => {},
                                ReceiveOutcome::OtherError(_) => {
                                    assert(false);
                                },
                            }
                        }
                        assert(spec_stop(prev, source.packets@, ppos0, vid, draining0)
                            == StopModel::CleanExhaustion);
                    }
                    return None;
                },
                DecodeAction::Fatal(e) => {
                    proof {
                        assert(spec_yields(prev, source.packets@, ppos0, vid, draining0)
                            =~= Seq::<FrameModel>::empty()) by {
                            match out0 {
                                ReceiveOutcome::Decoded(_) => {
                                    assert(false);
                                },
                                ReceiveOutcome::StatusCode { errno } => {},
                                ReceiveOutcome::EndOfStream => {
                                    assert(false);
                                },
                                ReceiveOutcome::OtherError(_) => {},
                            }
                        }
                    }
                    return Some(Err(e));
                },
            }
        }
    }
}

/// How many decodable frames the run reaches before it stops: the length
/// of the yielded sequence.
pub open spec fn spec_decodable_count(
    replies: Seq<ReceiveOutcome>,
    packets: Seq<usize>,
    ppos: int,
    vid: usize,
    draining: bool,
) -> nat
    decreases replies.len(),
{
    if replies.len() == 0 {
        0
    } else {
        let rest = replies.drop_first();
        match replies[0] {
            ReceiveOutcome::Decoded(_) => 1 + spec_decodable_count(
                rest,
                packets,
                ppos,
                vid,
                draining,
            ),
            ReceiveOutcome::StatusCode { errno } => {
                if errno != NEED_MORE_DATA {
                    0
                } else if draining {
                    0
                } else {
                    let q = spec_next_video(packets, ppos, vid);
                    if q < packets.len() {
                        spec_decodable_count(rest, packets, q + 1, vid, false)
                    } else {
                        spec_decodable_count(rest, packets, ppos, vid, true)
                    }
                }
            },
            ReceiveOutcome::EndOfStream => 0,
            ReceiveOutcome::OtherError(_) => 0,
        }
    }
}

/// A run over codec replies with `K` reachable decodable frames yields
/// exactly `K` frames — no more, no fewer.
pub proof fn lemma_yield_count(
    replies: Seq<ReceiveOutcome>,
    packets: Seq<usize>,
    ppos: int,
    vid: usize,
    draining: bool,
)
    ensures
        spec_yields(replies, packets, ppos, vid, draining).len() == spec_decodable_count(
            replies,
            packets,
            ppos,
            vid,
            draining,
        ),
    decreases replies.len(),
{
    if replies.len() != 0 {
        let rest = replies.drop_first();
        match replies[0] {
            ReceiveOutcome::Decoded(_) => {
                lemma_yield_count(rest, packets, ppos, vid, draining);
            },
            ReceiveOutcome::StatusCode { errno } => {
                if errno == NEED_MORE_DATA && !draining {
                    let q = spec_next_video(packets, ppos, vid);
                    if q < packets.len() {
                        lemma_yield_count(rest, packets, q + 1, vid, false);
                    } else {
                        lemma_yield_count(rest, packets, ppos, vid, true);
                    }
                }
            },
            ReceiveOutcome::EndOfStream => {},
            ReceiveOutcome::OtherError(_) => {},
        }
    }
}

/// Whether or not a hardware session was negotiated, the same codec
/// replies and packets reach the same decoded frames and the same
/// stopping condition: on a host with no supported device the decoder
/// falls back to software and produces an otherwise identical run.  What
/// each decoded frame turns into differs at most in its sample values
/// (`lemma_scaled_frames_agree`).
pub proof fn lemma_software_fallback_equivalence(
    with_hardware: HardwareAcceleratedVideoDecoder,
    without_hardware: HardwareAcceleratedVideoDecoder,
    replies: Seq<ReceiveOutcome>,
    packets: Seq<usize>,
    ppos: int,
)
    requires
        with_hardware.hardware is Some,
        without_hardware.hardware is None,
        with_hardware.video_stream_index == without_hardware.video_stream_index,
        with_hardware.target == without_hardware.target,
        with_hardware.phase == without_hardware.phase,
    ensures
        spec_yields(
            replies,
            packets,
            ppos,
            with_hardware.video_stream_index,
            with_hardware.phase == DecoderPhase::DrainingDecoder,
        ) == spec_yields(
            replies,
            packets,
            ppos,
            without_hardware.video_stream_index,
            without_hardware.phase == DecoderPhase::DrainingDecoder,
        ),
        spec_stop(
            replies,
            packets,
            ppos,
            with_hardware.video_stream_index,
            with_hardware.phase == DecoderPhase::DrainingDecoder,
        ) == spec_stop(
            replies,
            packets,
            ppos,
            without_hardware.video_stream_index,
            without_hardware.phase == DecoderPhase::DrainingDecoder,
        ),
{
}

impl HardwareAcceleratedVideoDecoder {
    /// Drives `get_frame` to exhaustion: collects every yielded frame, in
    /// order, and the error that stopped the run, if one did.
    ///
    /// The collected frames correspond one for one to the run's decoded
    /// frames — for codec replies holding `K` reachable decodable frames,
    /// exactly `K` frames — each related to its decoded frame by
    /// `spec_emitted_matches`; the decoder ends exhausted (permanently:
    /// every further pull is `None`) or failed with the run's exact
    /// stopping error.  When scaling is requested, every collected frame
    /// has the target dimensions.
    pub fn decode_all(
        &mut self,
        codec_replies: &mut Vec<ReceiveOutcome>,
        source: &mut PacketSource,
    ) -> (r: (Vec<DecodedVideoFrame>, Option<MediaLibError>))
        requires
            old(self).wf(),
            old(source).wf(),
            old(self).phase == DecoderPhase::Streaming,
        ensures
            ({
                let y0 = spec_yields(
                    old(codec_replies)@,
                    old(source).packets@,
                    old(source).pos as int,
                    old(self).video_stream_index,
                    false,
                );
                let s0 = spec_stop(
                    old(codec_replies)@,
                    old(source).packets@,
                    old(source).pos as int,
                    old(self).video_stream_index,
                    false,
                );
                &&& r.0@.len() == y0.len()
                &&& forall|i: int|
                    0 <= i < y0.len() ==> spec_emitted_matches(
                        old(self).target,
                        y0[i],
                        (#[trigger] r.0@[i])@,
                    )
                &&& (r.1 is None <==> s0 is CleanExhaustion)
                &&& r.1 is None ==> final(self).phase == DecoderPhase::Exhausted
                &&& r.1 matches Some(e) ==> {
                    &&& final(self).phase == DecoderPhase::Failed
                    &&& s0 matches StopModel::StatusFailure { errno } ==> e
                        matches MediaLibError::FFmpegError(m) && m@
                        == "Failed to receive frame: "@ + spec_decimal_i64(errno as int)
                    &&& s0 matches StopModel::MessageFailure { message } ==> e
                        matches MediaLibError::FFmpegError(m) && m@ == message
                }
                &&& old(self).target matches Some(d) ==> forall|i: int|
                    0 <= i < r.0@.len() ==> (#[trigger] r.0@[i]).width == d.0 && r.0@[i].height
                        == d.1
                &&& spec_frames_wf(old(codec_replies)@) ==> forall|i: int|
                    0 <= i < r.0@.len() ==> (#[trigger] r.0@[i]).wf()
            }),
            final(self).wf(),
    {
        let ghost y0 = spec_yields(
            codec_replies@,
            source.packets@,
            source.pos as int,
            self.video_stream_index,
            false,
        );
        let ghost s0 = spec_stop(
            codec_replies@,
            source.packets@,
            source.pos as int,
            self.video_stream_index,
            false,
        );
        let mut frames: Vec<DecodedVideoFrame> = Vec::new();
        let mut failure: Option<MediaLibError> = None;
        loop
            invariant_except_break
                self.wf(),
                source.wf(),
                spec_live(self.phase),
                failure is None,
                self.target == old(self).target,
                y0 == spec_yields(
                    old(codec_replies)@,
                    old(source).packets@,
                    old(source).pos as int,
                    old(self).video_stream_index,
                    false,
                ),
                s0 == spec_stop(
                    old(codec_replies)@,
                    old(source).packets@,
                    old(source).pos as int,
                    old(self).video_stream_index,
                    false,
                ),
                frames@.len() <= y0.len(),
                spec_yields(
                    codec_replies@,
                    source.packets@,
                    source.pos as int,
                    self.video_stream_index,
                    self.phase == DecoderPhase::DrainingDecoder,
                ) == y0.skip(frames@.len() as int),
                s0 == spec_stop(
                    codec_replies@,
                    source.packets@,
                    source.pos as int,
                    self.video_stream_index,
                    self.phase == DecoderPhase::DrainingDecoder,
                ),
                forall|i: int|
                    0 <= i < frames@.len() ==> spec_emitted_matches(
                        old(self).target,
                        y0[i],
                        (#[trigger] frames@[i])@,
                    ),
                old(self).target matches Some(d) ==> forall|i: int|
                    0 <= i < frames@.len() ==> (#[trigger] frames@[i]).width == d.0
                        && frames@[i].height == d.1,
                spec_frames_wf(old(codec_replies)@) ==> spec_frames_wf(codec_replies@),
                spec_frames_wf(old(codec_replies)@) ==> forall|i: int|
                    0 <= i < frames@.len() ==> (#[trigger] frames@[i]).wf(),
            ensures
                self.wf(),
                self.target == old(self).target,
                frames@.len() == y0.len(),
                forall|i: int|
                    0 <= i < frames@.len() ==> spec_emitted_matches(
                        old(self).target,
                        y0[i],
                        (#[trigger] frames@[i])@,
                    ),
                spec_frames_wf(old(codec_replies)@) ==> forall|i: int|
                    0 <= i < frames@.len() ==> (#[trigger] frames@[i]).wf(),
                failure is None ==> self.phase == DecoderPhase::Exhausted && s0
                    == StopModel::CleanExhaustion,
                failure matches Some(e) ==> {
                    &&& self.phase == DecoderPhase::Failed
                    &&& !(s0 is CleanExhaustion)
                    &&& s0 matches StopModel::StatusFailure { errno } ==> e
                        matches MediaLibError::FFmpegError(m) && m@
                        == "Failed to receive frame: "@ + spec_decimal_i64(errno as int)
                    &&& s0 matches StopModel::MessageFailure { message } ==> e
                        matches MediaLibError::FFmpegError(m) && m@ == message
                },
                old(self).target matches Some(d) ==> forall|i: int|
                    0 <= i < frames@.len() ==> (#[trigger] frames@[i]).width == d.0
                        && frames@[i].height == d.1,
            decreases codec_replies@.len(),
        {
            let ghost n = frames@.len() as int;
            match self.get_frame(codec_replies, source) {
                None => {
                    proof {
                        assert(y0.skip(n).len() == 0);
                        assert(frames@.len() == y0.len());
                    }
                    break ;
                },
                Some(Ok(f)) => {
                    proof {
                        assert(y0.skip(n)[0] == y0[n]);
                        assert(spec_yields(
                            codec_replies@,
                            source.packets@,
                            source.pos as int,
                            self.video_stream_index,
                            self.phase == DecoderPhase::DrainingDecoder,
                        ) =~= y0.skip(n + 1));
                    }
                    frames.push(f);
                },
                Some(Err(e)) => {
                    proof {
                        assert(y0.skip(n).len() == 0);
                        assert(frames@.len() == y0.len());
                    }
                    failure = Some(e);
                    break ;
                },
            }
        }
        (frames, failure)
    }
}

} // verus!
