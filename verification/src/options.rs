//! The requested encoding options, their validation and their normalization.
use vstd::prelude::*;

use crate::error::{spec_message, GifskiError};
use crate::text::{decimal_rep, decimal_string};

verus! {

use vstd::string::StringExecFns;

/// The options a caller hands to an encoding run.
///
/// The frame rate is carried in millihertz (frames per second, times one
/// thousand) so that timestamp arithmetic stays exact; a value of zero stands
/// for "unset or non-positive" and is replaced by the default during
/// validation.
#[derive(Clone, Copy, Debug)]
pub struct GifskiOptions {
    /// Resize to at most this width if non-zero.
    pub width: u32,
    /// Resize to at most this height if non-zero.
    pub height: u32,
    /// Encoding quality, valid in 1..=100.
    pub quality: u8,
    /// How often the animation repeats: negative means looping forever,
    /// a non-negative count is clamped to the encoder's range 0..=65535.
    pub repeat: i32,
    /// Lower quality, but faster encode.
    pub fast: bool,
    /// Frame rate in millihertz; zero (or anything non-positive before the
    /// caller's conversion) selects the default of 10 frames per second.
    pub fps_millis: u32,
}

/// How often the encoded animation repeats.
#[derive(Clone, Copy, Debug, PartialEq, Eq, Structural)]
pub enum LoopPolicy {
    /// Loop forever.
    Infinite,
    /// Play the animation `1 + n` times.
    Finite(u16),
}

/// The validated, normalized settings the encoder is constructed from.
#[derive(Clone, Copy, Debug, PartialEq, Eq, Structural)]
pub struct EncoderSettings {
    /// Resize to at most this width, if requested.
    pub width: Option<u32>,
    /// Resize to at most this height, if requested.
    pub height: Option<u32>,
    /// Encoding quality, always in 1..=100.
    pub quality: u8,
    /// Lower quality, but faster encode.
    pub fast: bool,
    /// How often the animation repeats.
    pub repeat: LoopPolicy,
    /// Frame rate in millihertz, always at least 1.
    pub fps_millis: u32,
}

/// The default frame rate of 10 frames per second, in millihertz.
pub const DEFAULT_FPS_MILLIS: u32 = 10_000;

/// A quality value the encoder accepts.
pub open spec fn quality_valid(quality: u8) -> bool {
    1 <= quality <= 100
}

/// A zero dimension means "keep the source size".
pub open spec fn spec_dimension(d: u32) -> Option<u32> {
    if d > 0 {
        Some(d)
    } else {
        None
    }
}

/// A non-positive frame rate falls back to the default of 10 frames per second.
pub open spec fn spec_normalized_fps(fps_millis: u32) -> u32 {
    if fps_millis == 0 {
        DEFAULT_FPS_MILLIS
    } else {
        fps_millis
    }
}

/// A negative repeat count means looping forever; a non-negative one is
/// clamped to the encoder's representable range 0..=65535.
pub open spec fn spec_loop_policy(repeat: i32) -> LoopPolicy {
    if repeat < 0 {
        LoopPolicy::Infinite
    } else if repeat > 65535 {
        LoopPolicy::Finite(65535)
    } else {
        LoopPolicy::Finite(repeat as u16)
    }
}

/// The settings that validation produces from accepted options.
pub open spec fn spec_settings(o: GifskiOptions) -> EncoderSettings {
    EncoderSettings {
        width: spec_dimension(o.width),
        height: spec_dimension(o.height),
        quality: o.quality,
        fast: o.fast,
        repeat: spec_loop_policy(o.repeat),
        fps_millis: spec_normalized_fps(o.fps_millis),
    }
}

/// The reason text that rejected options carry.
pub open spec fn spec_quality_reason(quality: u8) -> Seq<char> {
    "quality must be between 1 and 100, got "@ + decimal_rep(quality as nat)
}

/// Everything `validate_options` promises of its result: options are accepted
/// exactly when the quality is in range, acceptance yields the normalized
/// settings, and rejection yields `InvalidOptions` naming the quality.
pub open spec fn validation_post(o: GifskiOptions, r: Result<EncoderSettings, GifskiError>) -> bool {
    &&& (r matches Ok(_)) <==> quality_valid(o.quality)
    &&& (r matches Ok(s) ==> s == spec_settings(o))
    &&& (r matches Err(e) ==> e matches GifskiError::InvalidOptions { reason }
        && reason@ == spec_quality_reason(o.quality))
}

/// Checks and normalizes the options before any stage starts: quality outside
/// 1..=100 is rejected with `InvalidOptions`, a non-positive frame rate falls
/// back to 10 frames per second, and the repeat count is mapped onto the
/// encoder's loop policy.
pub fn validate_options(o: &GifskiOptions) -> (r: Result<EncoderSettings, GifskiError>)
    ensures
        validation_post(*o, r),
{
    if o.quality < 1 || o.quality > 100 {
        let mut reason = String::from_str("quality must be between 1 and 100, got ");
        let quality_text = decimal_string(o.quality as u32);
        reason.append(quality_text.as_str());
        return Err(GifskiError::InvalidOptions { reason });
    }
    let width: Option<u32> = if o.width > 0 {
        Some(o.width)
    } else {
        None
    };
    let height: Option<u32> = if o.height > 0 {
        Some(o.height)
    } else {
        None
    };
    let repeat: LoopPolicy = if o.repeat < 0 {
        LoopPolicy::Infinite
    } else if o.repeat > 65535 {
        LoopPolicy::Finite(65535)
    } else {
        LoopPolicy::Finite(o.repeat as u16)
    };
    let fps_millis: u32 = if o.fps_millis == 0 {
        DEFAULT_FPS_MILLIS
    } else {
        o.fps_millis
    };
    Ok(
        EncoderSettings {
            width,
            height,
            quality: o.quality,
            fast: o.fast,
            repeat,
            fps_millis,
        },
    )
}

/// Validation is idempotent: its accept/reject decision, and the value it
/// produces, are a pure function of the options, so two runs on the same
/// options agree. `r1` and `r2` stand for the results of any two calls of
/// `validate_options` on the options `o`, as pinned down by its contract.
pub proof fn lemma_validation_idempotent(
    o: GifskiOptions,
    r1: Result<EncoderSettings, GifskiError>,
    r2: Result<EncoderSettings, GifskiError>,
)
    requires
        validation_post(o, r1),
        validation_post(o, r2),
    ensures
        (r1 matches Ok(_)) <==> (r2 matches Ok(_)),
        r1 matches Ok(s1) ==> (r2 matches Ok(s2) ==> s1 == s2),
        r1 matches Err(e1) ==> (r2 matches Err(e2) ==> spec_message(e1) == spec_message(e2)),
{
}

} // verus!
