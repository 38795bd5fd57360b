//! A hardware-accelerated video frame decoding pipeline, modelled and verified.
//!
//! The pipeline pulls compressed packets from a demuxed input, drives a codec
//! through a feed/drain state machine, negotiates a hardware pixel format when
//! a device is available, routes decoded frames through a scaling/conversion
//! graph, and hands frames across a runtime plugin boundary.  The decision
//! logic of every stage lives here as verified code over plain values; the
//! calls into the codec, the dynamic loader and the device drivers are made by
//! an unverified shell that performs each requested action and reports its
//! outcome back.

mod decoder;
mod filters;
mod frame;
mod graph;
mod negotiate;
mod options;
mod plugin;
mod text;
mod types;

pub use decoder::DecodeAction;
pub use decoder::DecoderPhase;
pub use decoder::HardwareAcceleratedVideoDecoder;
pub use decoder::NEED_MORE_DATA;
pub use decoder::PacketSource;
pub use decoder::ReceiveOutcome;
pub use decoder::StopModel;
pub use decoder::lemma_software_fallback_equivalence;
pub use decoder::lemma_yield_count;
pub use decoder::spec_decodable_count;
pub use decoder::spec_emitted_matches;
pub use decoder::spec_frames_wf;
pub use decoder::spec_live;
pub use decoder::spec_next_video;
pub use decoder::spec_stop;
pub use decoder::spec_yields;
pub use filters::DeviceKind;
pub use filters::create_filter_str;
pub use filters::create_source_args;
pub use filters::create_graph_str;
pub use filters::device_kind_name;
pub use filters::spec_chain_ok;
pub use filters::spec_chain_text;
pub use filters::spec_device_kind_name;
pub use filters::spec_format_name;
pub use filters::spec_source_args_text;
pub use filters::spec_graph_text;
pub use frame::DecodedVideoFrame;
pub use frame::FrameModel;
pub use frame::FramePlane;
pub use frame::PIX_FMT_NONE;
pub use frame::PIX_FMT_NV12;
pub use frame::PIX_FMT_YUV420P;
pub use frame::PlaneModel;
pub use frame::lemma_packed_len;
pub use frame::lemma_stride_covers_rows;
pub use frame::lemma_yuv420p_plane_sizes;
pub use frame::pack_planar_frame;
pub use frame::pack_plane;
pub use frame::spec_chroma_extent;
pub use graph::BuildStage;
pub use graph::FilterGraph;
pub use graph::GraphBuilder;
pub use graph::GraphResource;
pub use graph::lemma_teardown_releases_everything;
pub use graph::scale_frame;
pub use graph::spec_next_stage;
pub use graph::lemma_scaled_frames_agree;
pub use graph::spec_scaled_frame;
pub use graph::spec_stage_resource;
pub use negotiate::HardwareCandidate;
pub use negotiate::HardwareContext;
pub use negotiate::StreamInfo;
pub use negotiate::negotiate_pixel_format;
pub use negotiate::next_eligible_candidate;
pub use negotiate::probe_hardware;
pub use negotiate::select_best_stream;
pub use negotiate::spec_probe_hit;
pub use options::CodecOption;
pub use options::CodecPrivateOptions;
pub use options::OptionValue;
pub use options::RawCodecOption;
pub use options::RawOptionKind;
pub use options::classify_option;
pub use options::get_codec_private_options;
pub use options::spec_classified;
pub use options::spec_codec_options_description;
pub use options::spec_help_lines;
pub use options::spec_int_description;
pub use options::spec_option_description;
pub use options::spec_repeat_text;
pub use options::spec_value_description;
pub use plugin::HostOs;
pub use plugin::LoadStage;
pub use plugin::MediaClient;
pub use plugin::MediaClientError;
pub use plugin::ModuleLoadReport;
pub use plugin::PluginLoader;
pub use plugin::default_library_name;
pub use plugin::load;
pub use plugin::spec_client_error_message;
pub use plugin::spec_next_load_stage;
pub use plugin::spec_stage_is_load_error;
pub use text::binary_u64;
pub use text::decimal_i64;
pub use text::decimal_u64;
pub use text::spec_binary;
pub use text::spec_decimal;
pub use text::spec_decimal_i64;
pub use text::spec_digit_char;
pub use types::Command;
pub use types::MediaFrameDecoderOptions;
pub use types::MediaLibError;
pub use types::MediaLibInit;
pub use types::VideoSize;
pub use types::spec_dimensions;
pub use types::spec_error_message;
