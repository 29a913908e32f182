//! Encoder configuration: every tunable of the encoder, set through chained
//! setters before a session is created.

use vstd::prelude::*;

use crate::encoder::{AV1Encoder, Cursor};
use crate::error::{check_status, AomError, Operation, AOM_CODEC_OK};

verus! {

/// Number of explicit tile widths a configuration can hold.
pub const MAX_TILE_WIDTHS: usize = 64;

/// Number of explicit tile heights a configuration can hold.
pub const MAX_TILE_HEIGHTS: usize = 64;

/// A rational number, such as the stream timebase.
#[derive(Clone, Copy, Debug, PartialEq, Eq, Structural)]
pub struct Rational {
    pub num: i32,
    pub den: i32,
}

/// Bit depth of the codec.
#[derive(Clone, Copy, Debug, PartialEq, Eq, Structural)]
pub enum BitDepth {
    Bits8,
    Bits10,
    Bits12,
}

/// Multi-pass encoding phase.
#[derive(Clone, Copy, Debug, PartialEq, Eq, Structural)]
pub enum EncodePass {
    /// Single-pass encoding.
    OnePass,
    /// First pass of a multi-pass encoding.
    FirstPass,
    /// Second pass of a multi-pass encoding.
    SecondPass,
    /// Third pass of a multi-pass encoding.
    ThirdPass,
}

/// Rate control algorithm.
#[derive(Clone, Copy, Debug, PartialEq, Eq, Structural)]
pub enum RateControlMode {
    /// Variable bitrate.
    VBR,
    /// Constant bitrate.
    CBR,
    /// Constrained quality.
    CQ,
    /// Constant quality.
    Q,
}

/// Frame super-resolution mode.
#[derive(Clone, Copy, Debug, PartialEq, Eq, Structural)]
pub enum SuperresMode {
    /// No super-resolution.
    Off,
    /// A fixed denominator.
    Fixed,
    /// A random denominator.
    Random,
    /// Super-resolution above a quantizer threshold.
    QThresh,
    /// Chosen by the encoder.
    Auto,
}

/// Keyframe placement mode.
#[derive(Clone, Copy, Debug, PartialEq, Eq, Structural)]
pub enum KeyframeMode {
    /// Keyframes only where forced or at the maximum distance.
    Disabled,
    /// The encoder places keyframes within the distance bounds.
    Auto,
}

/// Tile coding mode.
#[derive(Clone, Copy, Debug, PartialEq, Eq, Structural)]
pub enum TileCodingMode {
    /// Normal, non-large-scale tile coding.
    Normal,
    /// Large-scale tile coding.
    LargeScale,
}

/// Options that are normally read from a configuration file.
#[derive(Clone, Copy, Debug, PartialEq, Eq, Structural)]
pub struct CfgOptions {
    pub init_by_cfg_file: u32,
    pub super_block_size: u32,
    pub max_partition_size: u32,
    pub min_partition_size: u32,
    pub disable_ab_partition_type: u32,
    pub disable_rect_partition_type: u32,
    pub disable_1to4_partition_type: u32,
    pub disable_flip_idtx: u32,
    pub disable_cdef: u32,
    pub disable_lr: u32,
    pub disable_obmc: u32,
    pub disable_warp_motion: u32,
    pub disable_global_motion: u32,
    pub disable_dist_wtd_comp: u32,
    pub disable_diff_wtd_comp: u32,
    pub disable_inter_intra_comp: u32,
    pub disable_masked_comp: u32,
    pub disable_one_sided_comp: u32,
    pub disable_palette: u32,
    pub disable_intrabc: u32,
    pub disable_cfl: u32,
    pub disable_smooth_intra: u32,
    pub disable_filter_intra: u32,
    pub disable_dual_filter: u32,
    pub disable_intra_angle_delta: u32,
    pub disable_intra_edge_filter: u32,
    pub disable_tx_64x64: u32,
    pub disable_smooth_inter_intra: u32,
    pub disable_inter_inter_wedge: u32,
    pub disable_inter_intra_wedge: u32,
    pub disable_paeth_intra: u32,
    pub disable_trellis_quant: u32,
    pub disable_ref_frame_mv: u32,
    pub reduced_reference_set: u32,
    pub reduced_tx_type_set: u32,
}

/// Every encoder setting.
#[derive(Clone, Debug)]
pub struct EncoderCfg {
    pub g_usage: u32,
    pub g_threads: u32,
    pub g_profile: u32,
    pub g_w: u32,
    pub g_h: u32,
    pub g_limit: u32,
    pub g_forced_max_frame_width: u32,
    pub g_forced_max_frame_height: u32,
    pub g_bit_depth: BitDepth,
    pub g_input_bit_depth: u32,
    pub g_timebase: Rational,
    pub g_error_resilient: u32,
    pub g_pass: EncodePass,
    pub g_lag_in_frames: u32,
    pub rc_dropframe_thresh: u32,
    pub rc_resize_mode: u32,
    pub rc_resize_denominator: u32,
    pub rc_resize_kf_denominator: u32,
    pub rc_superres_mode: SuperresMode,
    pub rc_superres_denominator: u32,
    pub rc_superres_kf_denominator: u32,
    pub rc_superres_qthresh: u32,
    pub rc_superres_kf_qthresh: u32,
    pub rc_end_usage: RateControlMode,
    pub rc_twopass_stats_in: Vec<u8>,
    pub rc_firstpass_mb_stats_in: Vec<u8>,
    pub rc_target_bitrate: u32,
    pub rc_min_quantizer: u32,
    pub rc_max_quantizer: u32,
    pub rc_undershoot_pct: u32,
    pub rc_overshoot_pct: u32,
    pub rc_buf_sz: u32,
    pub rc_buf_initial_sz: u32,
    pub rc_buf_optimal_sz: u32,
    pub rc_2pass_vbr_bias_pct: u32,
    pub rc_2pass_vbr_minsection_pct: u32,
    pub rc_2pass_vbr_maxsection_pct: u32,
    pub fwd_kf_enabled: bool,
    pub kf_mode: KeyframeMode,
    pub kf_min_dist: u32,
    pub kf_max_dist: u32,
    pub sframe_dist: u32,
    pub sframe_mode: u32,
    pub large_scale_tile: TileCodingMode,
    pub monochrome: bool,
    pub full_still_picture_hdr: u32,
    pub save_as_annexb: bool,
    pub tile_width_count: i32,
    pub tile_height_count: i32,
    pub tile_widths: [i32; MAX_TILE_WIDTHS],
    pub tile_heights: [i32; MAX_TILE_HEIGHTS],
    pub use_fixed_qp_offsets: bool,
    pub fixed_qp_offsets: [i32; 5],
    pub encoder_cfg: CfgOptions,
}

/// A chainable encoder configuration.
///
/// Every setter takes the configuration and returns it with one setting
/// changed and every other one kept, so each intermediate value is a valid
/// configuration. Range checks are left to the engine, at session creation.
pub struct AV1EncoderConfig {
    cfg: EncoderCfg,
}

impl View for AV1EncoderConfig {
    type V = EncoderCfg;

    closed spec fn view(&self) -> EncoderCfg {
        self.cfg
    }
}

impl AV1EncoderConfig {
    /// The configuration the engine's default populator filled in, given the
    /// status it returned.
    ///
    /// Fails with `ConfigurationError` carrying the status when it is not
    /// the success status (as for an unknown usage value); the settings are
    /// then not used.
    pub fn new(status: u32, defaults: EncoderCfg) -> (r: Result<AV1EncoderConfig, AomError>)
        ensures
            status == AOM_CODEC_OK ==> r is Ok && r->Ok_0@ == defaults,
            status != AOM_CODEC_OK ==> r is Err && r->Err_0 == AomError::ConfigurationError(
                status,
            ),
    {
        match check_status(Operation::Configure, status) {
            Ok(()) => Ok(AV1EncoderConfig { cfg: defaults }),
            Err(e) => Err(e),
        }
    }

    /// The encoder session for a context created from this configuration,
    /// given the status its creation returned.
    ///
    /// Fails with `InitError` carrying the status when it is not the
    /// success status, as for a size or bit depth the engine rejects.
    pub fn get_encoder(&self, status: u32) -> (r: Result<AV1Encoder, AomError>)
        ensures
            status == AOM_CODEC_OK ==> r is Ok && r->Ok_0.state() == Cursor::Start,
            status != AOM_CODEC_OK ==> r is Err && r->Err_0 == AomError::InitError(status),
    {
        AV1Encoder::new(status)
    }

    /// The settings.
    pub fn cfg(&self) -> (r: &EncoderCfg)
        ensures
            *r == self@,
    {
        &self.cfg
    }

    /// The settings, for changing them in place.
    pub fn cfg_mut(&mut self) -> (r: &mut EncoderCfg)
        ensures
            *r == old(self)@,
            final(self)@ == *final(r),
    {
        &mut self.cfg
    }

    /// Sets the timebase to what `f` makes of the current one.
    pub fn g_timebase_with<F: FnOnce(Rational) -> Rational>(self, f: F) -> (r: Self)
        requires
            f.requires((self@.g_timebase,)),
        ensures
            f.ensures((self@.g_timebase,), r@.g_timebase),
            r@ == (EncoderCfg { g_timebase: r@.g_timebase, ..self@ }),
    {
        let mut c = self;
        let tb = c.cfg.g_timebase;
        c.cfg.g_timebase = f(tb);
        c
    }

    /// Algorithm-specific usage value.
    ///
    /// It conveys how the application intends to use the stream.
    pub fn g_usage(self, val: u32) -> (r: Self)
        ensures
            r@ == (EncoderCfg { g_usage: val, ..self@ }),
    {
        let mut c = self;
        c.cfg.g_usage = val;
        c
    }

    /// Maximum number of threads to use.
    ///
    /// The codec may use fewer. The value 0 is equivalent to 1.
    pub fn g_threads(self, val: u32) -> (r: Self)
        ensures
            r@ == (EncoderCfg { g_threads: val, ..self@ }),
    {
        let mut c = self;
        c.cfg.g_threads = val;
        c
    }

    /// Bitstream profile to use, 0 for the default.
    pub fn g_profile(self, val: u32) -> (r: Self)
        ensures
            r@ == (EncoderCfg { g_profile: val, ..self@ }),
    {
        let mut c = self;
        c.cfg.g_profile = val;
        c
    }

    /// Width of the frame, in pixels.
    ///
    /// Frames passed to the encoder must have this width.
    pub fn g_w(self, val: u32) -> (r: Self)
        ensures
            r@ == (EncoderCfg { g_w: val, ..self@ }),
    {
        let mut c = self;
        c.cfg.g_w = val;
        c
    }

    /// Height of the frame, in pixels.
    ///
    /// Frames passed to the encoder must have this height.
    pub fn g_h(self, val: u32) -> (r: Self)
        ensures
            r@ == (EncoderCfg { g_h: val, ..self@ }),
    {
        let mut c = self;
        c.cfg.g_h = val;
        c
    }

    /// Maximum number of frames to encode.
    ///
    /// A limit of 1 encodes a still picture.
    pub fn g_limit(self, val: u32) -> (r: Self)
        ensures
            r@ == (EncoderCfg { g_limit: val, ..self@ }),
    {
        let mut c = self;
        c.cfg.g_limit = val;
        c
    }

    /// Forced maximum frame width written in the sequence header, 0 for none.
    pub fn g_forced_max_frame_width(self, val: u32) -> (r: Self)
        ensures
            r@ == (EncoderCfg { g_forced_max_frame_width: val, ..self@ }),
    {
        let mut c = self;
        c.cfg.g_forced_max_frame_width = val;
        c
    }

    /// Forced maximum frame height written in the sequence header, 0 for none.
    pub fn g_forced_max_frame_height(self, val: u32) -> (r: Self)
        ensures
            r@ == (EncoderCfg { g_forced_max_frame_height: val, ..self@ }),
    {
        let mut c = self;
        c.cfg.g_forced_max_frame_height = val;
        c
    }

    /// Bit depth of the codec.
    pub fn g_bit_depth(self, val: BitDepth) -> (r: Self)
        ensures
            r@ == (EncoderCfg { g_bit_depth: val, ..self@ }),
    {
        let mut c = self;
        c.cfg.g_bit_depth = val;
        c
    }

    /// Bit depth of the input frames, in bits.
    pub fn g_input_bit_depth(self, val: u32) -> (r: Self)
        ensures
            r@ == (EncoderCfg { g_input_bit_depth: val, ..self@ }),
    {
        let mut c = self;
        c.cfg.g_input_bit_depth = val;
        c
    }

    /// Stream timebase: the smallest interval of time, in seconds, used by
    /// the stream.
    pub fn g_timebase(self, val: Rational) -> (r: Self)
        ensures
            r@ == (EncoderCfg { g_timebase: val, ..self@ }),
    {
        let mut c = self;
        c.cfg.g_timebase = val;
        c
    }

    /// Error resilient features to enable, as a bit field.
    pub fn g_error_resilient(self, val: u32) -> (r: Self)
        ensures
            r@ == (EncoderCfg { g_error_resilient: val, ..self@ }),
    {
        let mut c = self;
        c.cfg.g_error_resilient = val;
        c
    }

    /// Multi-pass encoding phase; `OnePass` for single-pass encoding.
    pub fn g_pass(self, val: EncodePass) -> (r: Self)
        ensures
            r@ == (EncoderCfg { g_pass: val, ..self@ }),
    {
        let mut c = self;
        c.cfg.g_pass = val;
        c
    }

    /// Maximum number of input frames the encoder may consume before
    /// producing output, 0 to disable lagged encoding.
    pub fn g_lag_in_frames(self, val: u32) -> (r: Self)
        ensures
            r@ == (EncoderCfg { g_lag_in_frames: val, ..self@ }),
    {
        let mut c = self;
        c.cfg.g_lag_in_frames = val;
        c
    }

    /// Buffer fullness, in percent, under which frames are dropped, 0 to
    /// never drop frames.
    pub fn rc_dropframe_thresh(self, val: u32) -> (r: Self)
        ensures
            r@ == (EncoderCfg { rc_dropframe_thresh: val, ..self@ }),
    {
        let mut c = self;
        c.cfg.rc_dropframe_thresh = val;
        c
    }

    /// Mode for spatial resampling.
    pub fn rc_resize_mode(self, val: u32) -> (r: Self)
        ensures
            r@ == (EncoderCfg { rc_resize_mode: val, ..self@ }),
    {
        let mut c = self;
        c.cfg.rc_resize_mode = val;
        c
    }

    /// Frame resize denominator, with 8 as the numerator.
    pub fn rc_resize_denominator(self, val: u32) -> (r: Self)
        ensures
            r@ == (EncoderCfg { rc_resize_denominator: val, ..self@ }),
    {
        let mut c = self;
        c.cfg.rc_resize_denominator = val;
        c
    }

    /// Keyframe resize denominator, with 8 as the numerator.
    pub fn rc_resize_kf_denominator(self, val: u32) -> (r: Self)
        ensures
            r@ == (EncoderCfg { rc_resize_kf_denominator: val, ..self@ }),
    {
        let mut c = self;
        c.cfg.rc_resize_kf_denominator = val;
        c
    }

    /// Frame super-resolution scaling mode.
    pub fn rc_superres_mode(self, val: SuperresMode) -> (r: Self)
        ensures
            r@ == (EncoderCfg { rc_superres_mode: val, ..self@ }),
    {
        let mut c = self;
        c.cfg.rc_superres_mode = val;
        c
    }

    /// Frame super-resolution denominator, used by `SuperresMode::Fixed`.
    pub fn rc_superres_denominator(self, val: u32) -> (r: Self)
        ensures
            r@ == (EncoderCfg { rc_superres_denominator: val, ..self@ }),
    {
        let mut c = self;
        c.cfg.rc_superres_denominator = val;
        c
    }

    /// Keyframe super-resolution denominator.
    pub fn rc_superres_kf_denominator(self, val: u32) -> (r: Self)
        ensures
            r@ == (EncoderCfg { rc_superres_kf_denominator: val, ..self@ }),
    {
        let mut c = self;
        c.cfg.rc_superres_kf_denominator = val;
        c
    }

    /// Quantizer threshold above which super-resolution is used, used by
    /// `SuperresMode::QThresh`.
    pub fn rc_superres_qthresh(self, val: u32) -> (r: Self)
        ensures
            r@ == (EncoderCfg { rc_superres_qthresh: val, ..self@ }),
    {
        let mut c = self;
        c.cfg.rc_superres_qthresh = val;
        c
    }

    /// Keyframe quantizer threshold above which super-resolution is used.
    pub fn rc_superres_kf_qthresh(self, val: u32) -> (r: Self)
        ensures
            r@ == (EncoderCfg { rc_superres_kf_qthresh: val, ..self@ }),
    {
        let mut c = self;
        c.cfg.rc_superres_kf_qthresh = val;
        c
    }

    /// Rate control algorithm to use.
    pub fn rc_end_usage(self, val: RateControlMode) -> (r: Self)
        ensures
            r@ == (EncoderCfg { rc_end_usage: val, ..self@ }),
    {
        let mut c = self;
        c.cfg.rc_end_usage = val;
        c
    }

    /// Two-pass statistics: every statistics packet of the first pass,
    /// concatenated.
    pub fn rc_twopass_stats_in(self, val: Vec<u8>) -> (r: Self)
        ensures
            r@ == (EncoderCfg { rc_twopass_stats_in: val, ..self@ }),
    {
        let mut c = self;
        c.cfg.rc_twopass_stats_in = val;
        c
    }

    /// First-pass macroblock statistics: every such packet of the first pass,
    /// concatenated.
    pub fn rc_firstpass_mb_stats_in(self, val: Vec<u8>) -> (r: Self)
        ensures
            r@ == (EncoderCfg { rc_firstpass_mb_stats_in: val, ..self@ }),
    {
        let mut c = self;
        c.cfg.rc_firstpass_mb_stats_in = val;
        c
    }

    /// Target bitrate, in kilobits per second.
    pub fn rc_target_bitrate(self, val: u32) -> (r: Self)
        ensures
            r@ == (EncoderCfg { rc_target_bitrate: val, ..self@ }),
    {
        let mut c = self;
        c.cfg.rc_target_bitrate = val;
        c
    }

    /// Minimum (best quality) quantizer.
    pub fn rc_min_quantizer(self, val: u32) -> (r: Self)
        ensures
            r@ == (EncoderCfg { rc_min_quantizer: val, ..self@ }),
    {
        let mut c = self;
        c.cfg.rc_min_quantizer = val;
        c
    }

    /// Maximum (worst quality) quantizer.
    pub fn rc_max_quantizer(self, val: u32) -> (r: Self)
        ensures
            r@ == (EncoderCfg { rc_max_quantizer: val, ..self@ }),
    {
        let mut c = self;
        c.cfg.rc_max_quantizer = val;
        c
    }

    /// Rate control undershoot tolerance, in percent (0 to 100).
    pub fn rc_undershoot_pct(self, val: u32) -> (r: Self)
        ensures
            r@ == (EncoderCfg { rc_undershoot_pct: val, ..self@ }),
    {
        let mut c = self;
        c.cfg.rc_undershoot_pct = val;
        c
    }

    /// Rate control overshoot tolerance, in percent (0 to 100).
    pub fn rc_overshoot_pct(self, val: u32) -> (r: Self)
        ensures
            r@ == (EncoderCfg { rc_overshoot_pct: val, ..self@ }),
    {
        let mut c = self;
        c.cfg.rc_overshoot_pct = val;
        c
    }

    /// Decoder buffer size, in milliseconds.
    pub fn rc_buf_sz(self, val: u32) -> (r: Self)
        ensures
            r@ == (EncoderCfg { rc_buf_sz: val, ..self@ }),
    {
        let mut c = self;
        c.cfg.rc_buf_sz = val;
        c
    }

    /// Decoder buffer initial size, in milliseconds.
    pub fn rc_buf_initial_sz(self, val: u32) -> (r: Self)
        ensures
            r@ == (EncoderCfg { rc_buf_initial_sz: val, ..self@ }),
    {
        let mut c = self;
        c.cfg.rc_buf_initial_sz = val;
        c
    }

    /// Decoder buffer optimal size, in milliseconds.
    pub fn rc_buf_optimal_sz(self, val: u32) -> (r: Self)
        ensures
            r@ == (EncoderCfg { rc_buf_optimal_sz: val, ..self@ }),
    {
        let mut c = self;
        c.cfg.rc_buf_optimal_sz = val;
        c
    }

    /// Two-pass bias between CBR (0) and VBR (100) frame sizing.
    pub fn rc_2pass_vbr_bias_pct(self, val: u32) -> (r: Self)
        ensures
            r@ == (EncoderCfg { rc_2pass_vbr_bias_pct: val, ..self@ }),
    {
        let mut c = self;
        c.cfg.rc_2pass_vbr_bias_pct = val;
        c
    }

    /// Two-pass minimum bitrate of a group of pictures, in percent of the target.
    pub fn rc_2pass_vbr_minsection_pct(self, val: u32) -> (r: Self)
        ensures
            r@ == (EncoderCfg { rc_2pass_vbr_minsection_pct: val, ..self@ }),
    {
        let mut c = self;
        c.cfg.rc_2pass_vbr_minsection_pct = val;
        c
    }

    /// Two-pass maximum bitrate of a group of pictures, in percent of the target.
    pub fn rc_2pass_vbr_maxsection_pct(self, val: u32) -> (r: Self)
        ensures
            r@ == (EncoderCfg { rc_2pass_vbr_maxsection_pct: val, ..self@ }),
    {
        let mut c = self;
        c.cfg.rc_2pass_vbr_maxsection_pct = val;
        c
    }

    /// Whether forward reference key frames are enabled.
    pub fn fwd_kf_enabled(self, val: bool) -> (r: Self)
        ensures
            r@ == (EncoderCfg { fwd_kf_enabled: val, ..self@ }),
    {
        let mut c = self;
        c.cfg.fwd_kf_enabled = val;
        c
    }

    /// Keyframe placement mode.
    pub fn kf_mode(self, val: KeyframeMode) -> (r: Self)
        ensures
            r@ == (EncoderCfg { kf_mode: val, ..self@ }),
    {
        let mut c = self;
        c.cfg.kf_mode = val;
        c
    }

    /// Minimum distance between keyframes, in frames.
    pub fn kf_min_dist(self, val: u32) -> (r: Self)
        ensures
            r@ == (EncoderCfg { kf_min_dist: val, ..self@ }),
    {
        let mut c = self;
        c.cfg.kf_min_dist = val;
        c
    }

    /// Maximum distance between keyframes, in frames; 0 makes every frame a
    /// keyframe.
    pub fn kf_max_dist(self, val: u32) -> (r: Self)
        ensures
            r@ == (EncoderCfg { kf_max_dist: val, ..self@ }),
    {
        let mut c = self;
        c.cfg.kf_max_dist = val;
        c
    }

    /// Distance between S-frames, in frames, 0 for none.
    pub fn sframe_dist(self, val: u32) -> (r: Self)
        ensures
            r@ == (EncoderCfg { sframe_dist: val, ..self@ }),
    {
        let mut c = self;
        c.cfg.sframe_dist = val;
        c
    }

    /// S-frame insertion mode, 1 or 2.
    pub fn sframe_mode(self, val: u32) -> (r: Self)
        ensures
            r@ == (EncoderCfg { sframe_mode: val, ..self@ }),
    {
        let mut c = self;
        c.cfg.sframe_mode = val;
        c
    }

    /// Tile coding mode.
    pub fn large_scale_tile(self, val: TileCodingMode) -> (r: Self)
        ensures
            r@ == (EncoderCfg { large_scale_tile: val, ..self@ }),
    {
        let mut c = self;
        c.cfg.large_scale_tile = val;
        c
    }

    /// Whether to encode a monochrome stream, without chroma planes.
    pub fn monochrome(self, val: bool) -> (r: Self)
        ensures
            r@ == (EncoderCfg { monochrome: val, ..self@ }),
    {
        let mut c = self;
        c.cfg.monochrome = val;
        c
    }

    /// Non-zero to write a full sequence header for still pictures.
    pub fn full_still_picture_hdr(self, val: u32) -> (r: Self)
        ensures
            r@ == (EncoderCfg { full_still_picture_hdr: val, ..self@ }),
    {
        let mut c = self;
        c.cfg.full_still_picture_hdr = val;
        c
    }

    /// Whether the bitstream is written in Annex-B format.
    pub fn save_as_annexb(self, val: bool) -> (r: Self)
        ensures
            r@ == (EncoderCfg { save_as_annexb: val, ..self@ }),
    {
        let mut c = self;
        c.cfg.save_as_annexb = val;
        c
    }

    /// Number of explicit tile widths given in `tile_widths`.
    pub fn tile_width_count(self, val: i32) -> (r: Self)
        ensures
            r@ == (EncoderCfg { tile_width_count: val, ..self@ }),
    {
        let mut c = self;
        c.cfg.tile_width_count = val;
        c
    }

    /// Number of explicit tile heights given in `tile_heights`.
    pub fn tile_height_count(self, val: i32) -> (r: Self)
        ensures
            r@ == (EncoderCfg { tile_height_count: val, ..self@ }),
    {
        let mut c = self;
        c.cfg.tile_height_count = val;
        c
    }

    /// Explicit tile widths; the first `tile_width_count` are used.
    pub fn tile_widths(self, val: [i32; MAX_TILE_WIDTHS]) -> (r: Self)
        ensures
            r@ == (EncoderCfg { tile_widths: val, ..self@ }),
    {
        let mut c = self;
        c.cfg.tile_widths = val;
        c
    }

    /// Explicit tile heights; the first `tile_height_count` are used.
    pub fn tile_heights(self, val: [i32; MAX_TILE_HEIGHTS]) -> (r: Self)
        ensures
            r@ == (EncoderCfg { tile_heights: val, ..self@ }),
    {
        let mut c = self;
        c.cfg.tile_heights = val;
        c
    }

    /// Whether fixed quantizer offsets are used for the levels of the
    /// pyramid, with the Q rate control mode.
    pub fn use_fixed_qp_offsets(self, val: bool) -> (r: Self)
        ensures
            r@ == (EncoderCfg { use_fixed_qp_offsets: val, ..self@ }),
    {
        let mut c = self;
        c.cfg.use_fixed_qp_offsets = val;
        c
    }

    /// Fixed quantizer offsets per pyramid level. Superseded by
    /// `use_fixed_qp_offsets`; kept for existing callers.
    pub fn fixed_qp_offsets(self, val: [i32; 5]) -> (r: Self)
        ensures
            r@ == (EncoderCfg { fixed_qp_offsets: val, ..self@ }),
    {
        let mut c = self;
        c.cfg.fixed_qp_offsets = val;
        c
    }

    /// Options normally set from a configuration file.
    pub fn encoder_cfg(self, val: CfgOptions) -> (r: Self)
        ensures
            r@ == (EncoderCfg { encoder_cfg: val, ..self@ }),
    {
        let mut c = self;
        c.cfg.encoder_cfg = val;
        c
    }
}

} // verus!
