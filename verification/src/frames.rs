//! The frame source: filtering candidate paths down to existing ones and
//! assigning contiguous indices and presentation timestamps.
use vstd::prelude::*;

use crate::error::GifskiError;
use crate::options::{
    quality_valid, spec_normalized_fps, spec_quality_reason, spec_settings, validate_options,
    EncoderSettings, GifskiOptions,
};

verus! {

/// One frame the collector stage will submit: where it comes from, its place
/// in the animation, and when it is to be displayed.
#[derive(Debug)]
pub struct FrameRequest {
    /// Zero-based position in the animation; contiguous over the plan.
    pub index: u32,
    /// Path of the still image to decode.
    pub source_path: String,
    /// Presentation timestamp in microseconds since the start, derived as
    /// index divided by the frame rate.
    pub pts_micros: u64,
}

/// The candidate paths that carry a true flag, in the order they were given.
pub open spec fn filtered_paths(paths: Seq<Seq<char>>, flags: Seq<bool>) -> Seq<Seq<char>>
    decreases paths.len(),
{
    if paths.len() == 0 {
        Seq::empty()
    } else {
        let prefix = filtered_paths(paths.drop_last(), flags.drop_last());
        if flags[paths.len() - 1] {
            prefix.push(paths.last())
        } else {
            prefix
        }
    }
}

/// Filtering keeps at most as many paths as were offered.
pub proof fn lemma_filtered_len_le(paths: Seq<Seq<char>>, flags: Seq<bool>)
    ensures
        filtered_paths(paths, flags).len() <= paths.len(),
    decreases paths.len(),
{
    if paths.len() > 0 {
        lemma_filtered_len_le(paths.drop_last(), flags.drop_last());
    }
}

/// How long one frame is displayed, in microseconds: the reciprocal of the
/// frame rate, rounded down.
pub open spec fn spec_frame_duration_micros(fps_millis: u32) -> int {
    1_000_000_000int / fps_millis as int
}

/// Relies on std::path::Path::exists: a read-only existence check against the
/// file system. The answer depends on the state of the disk at the moment of
/// the call, so nothing is promised of it.
#[verifier::external_body]
fn path_exists(path: &String) -> bool {
    std::path::Path::new(path.as_str()).exists()
}

/// Asks the file system, for each candidate path in order, whether it
/// currently exists. Read-only; the flags are whatever the disk answered.
pub fn probe_paths(paths: &Vec<String>) -> (flags: Vec<bool>)
    ensures
        flags@.len() == paths@.len(),
{
    let mut flags: Vec<bool> = Vec::new();
    let mut i: usize = 0;
    while i < paths.len()
        invariant
            i <= paths@.len(),
            flags@.len() == i,
        decreases paths@.len() - i,
    {
        let here = path_exists(&paths[i]);
        flags.push(here);
        i = i + 1;
    }
    flags
}

/// Keeps, in order, exactly the paths whose existence flag is true.
pub fn filter_existing(paths: &Vec<String>, exists_flags: &Vec<bool>) -> (kept: Vec<String>)
    requires
        exists_flags@.len() == paths@.len(),
    ensures
        kept.deep_view() == filtered_paths(paths.deep_view(), exists_flags@),
{
    let ghost all = paths.deep_view();
    let mut kept: Vec<String> = Vec::new();
    let mut i: usize = 0;
    while i < paths.len()
        invariant
            i <= paths@.len(),
            all == paths.deep_view(),
            exists_flags@.len() == paths@.len(),
            kept.deep_view() == filtered_paths(all.take(i as int), exists_flags@.take(i as int)),
        decreases paths@.len() - i,
    {
        let ghost prev = kept.deep_view();
        if exists_flags[i] {
            kept.push(paths[i].clone());
            proof {
                assert(kept.deep_view() =~= prev.push(all[i as int]));
            }
        }
        proof {
            let taken = all.take(i + 1);
            assert(taken.drop_last() =~= all.take(i as int));
            assert(exists_flags@.take(i + 1).drop_last() =~= exists_flags@.take(i as int));
            assert(taken.last() == all[i as int]);
        }
        i = i + 1;
    }
    proof {
        assert(all.take(paths@.len() as int) =~= all);
        assert(exists_flags@.take(paths@.len() as int) =~= exists_flags@);
    }
    kept
}

/// Gives each kept path its zero-based index and presentation timestamp.
pub fn build_frames(paths: Vec<String>, fps_millis: u32) -> (frames: Vec<FrameRequest>)
    requires
        1 <= fps_millis,
        paths@.len() <= u32::MAX,
    ensures
        frames@.len() == paths@.len(),
        forall|i: int|
            0 <= i < frames@.len() ==> {
                &&& (#[trigger] frames@[i]).index == i
                &&& frames@[i].source_path@ == paths@[i]@
                &&& frames@[i].pts_micros == i * spec_frame_duration_micros(fps_millis)
            },
{
    let duration: u64 = 1_000_000_000u64 / (fps_millis as u64);
    let mut frames: Vec<FrameRequest> = Vec::new();
    let mut i: usize = 0;
    while i < paths.len()
        invariant
            i <= paths@.len(),
            paths@.len() <= u32::MAX,
            duration == spec_frame_duration_micros(fps_millis),
            duration <= 1_000_000_000,
            frames@.len() == i,
            forall|j: int|
                0 <= j < i ==> {
                    &&& (#[trigger] frames@[j]).index == j
                    &&& frames@[j].source_path@ == paths@[j]@
                    &&& frames@[j].pts_micros == j * spec_frame_duration_micros(fps_millis)
                },
        decreases paths@.len() - i,
    {
        proof {
            assert((i as u64) * duration <= 0xFFFF_FFFFu64 * 1_000_000_000u64)
                by (nonlinear_arith)
                requires
                    i <= 0xFFFF_FFFFu64,
                    duration <= 1_000_000_000u64,
            ;
        }
        let pts: u64 = (i as u64) * duration;
        let frame = FrameRequest { index: i as u32, source_path: paths[i].clone(), pts_micros: pts };
        frames.push(frame);
        i = i + 1;
    }
    frames
}

/// Everything a run needs once validation has passed: the frames in order and
/// the settings the encoder is constructed from.
pub struct EncodePlan {
    /// The frames to submit, in index order.
    pub frames: Vec<FrameRequest>,
    /// The validated, normalized encoder settings.
    pub settings: EncoderSettings,
    /// How many frames the plan holds; the denominator of progress fractions.
    pub total_frames: u32,
}

/// When planning accepts: at least one candidate path exists and the quality
/// is in range.
pub open spec fn plan_accepts(paths: Seq<Seq<char>>, flags: Seq<bool>, o: GifskiOptions) -> bool {
    filtered_paths(paths, flags).len() > 0 && quality_valid(o.quality)
}

/// The frames of a plan are exactly the kept paths, with contiguous zero-based
/// indices and timestamps stepping by the frame duration.
pub open spec fn plan_frames_wf(
    frames: Seq<FrameRequest>,
    kept: Seq<Seq<char>>,
    fps_millis: u32,
) -> bool {
    &&& frames.len() == kept.len()
    &&& forall|i: int|
        0 <= i < frames.len() ==> {
            &&& (#[trigger] frames[i]).index == i
            &&& frames[i].source_path@ == kept[i]
            &&& frames[i].pts_micros == i * spec_frame_duration_micros(fps_millis)
        }
}

/// Everything planning promises of its result, given the candidate paths,
/// their existence flags and the options: it accepts exactly when some path
/// exists and the quality is in range; an empty filtered list yields
/// `NoInputPaths` (checked before the options, as the encoder must not be
/// touched for it); a bad quality yields `InvalidOptions`; and acceptance
/// yields the normalized settings with well-formed frames.
pub open spec fn plan_post(
    paths: Seq<Seq<char>>,
    flags: Seq<bool>,
    o: GifskiOptions,
    r: Result<EncodePlan, GifskiError>,
) -> bool {
    let kept = filtered_paths(paths, flags);
    &&& ((r matches Ok(_)) <==> plan_accepts(paths, flags, o))
    &&& (r matches Err(e) ==> if kept.len() == 0 {
        e matches GifskiError::NoInputPaths
    } else {
        e matches GifskiError::InvalidOptions { reason } && reason@ == spec_quality_reason(
            o.quality,
        )
    })
    &&& (r matches Ok(plan) ==> {
        &&& plan.settings == spec_settings(o)
        &&& plan.total_frames == kept.len()
        &&& plan_frames_wf(plan.frames@, kept, spec_normalized_fps(o.fps_millis))
    })
}

/// Path and options validation is idempotent: the accept/reject decision, and
/// which rejection is reported, are a pure function of the candidate paths,
/// their existence flags and the options, so two runs on the same inputs
/// agree. `r1` and `r2` stand for the results of any two calls of
/// `plan_encode_with` on the same inputs, as pinned down by its contract.
pub proof fn lemma_plan_idempotent(
    paths: Seq<Seq<char>>,
    flags: Seq<bool>,
    o: GifskiOptions,
    r1: Result<EncodePlan, GifskiError>,
    r2: Result<EncodePlan, GifskiError>,
)
    requires
        plan_post(paths, flags, o, r1),
        plan_post(paths, flags, o, r2),
    ensures
        (r1 matches Ok(_)) <==> (r2 matches Ok(_)),
        (r1 matches Err(GifskiError::NoInputPaths)) <==> (r2 matches Err(
            GifskiError::NoInputPaths,
        )),
        (r1 matches Err(GifskiError::InvalidOptions { .. })) <==> (r2 matches Err(
            GifskiError::InvalidOptions { .. },
        )),
{
}

/// Plans a run from the candidate paths and the given existence flags:
/// filters, rejects an empty result with `NoInputPaths`, validates the
/// options, and assigns indices and timestamps.
pub fn plan_encode_with(
    paths: &Vec<String>,
    exists_flags: &Vec<bool>,
    options: &GifskiOptions,
) -> (r: Result<EncodePlan, GifskiError>)
    requires
        exists_flags@.len() == paths@.len(),
        paths@.len() <= u32::MAX,
    ensures
        plan_post(paths.deep_view(), exists_flags@, *options, r),
{
    let kept = filter_existing(paths, exists_flags);
    proof {
        lemma_filtered_len_le(paths.deep_view(), exists_flags@);
    }
    if kept.len() == 0 {
        return Err(GifskiError::NoInputPaths);
    }
    let settings = match validate_options(options) {
        Ok(s) => s,
        Err(e) => {
            return Err(e);
        },
    };
    let total_frames: u32 = kept.len() as u32;
    let frames = build_frames(kept, settings.fps_millis);
    Ok(EncodePlan { frames, settings, total_frames })
}

/// Plans a run from the candidate paths alone, asking the file system which of
/// them exist. The flags come from the disk, so the exact filtered list is not
/// pinned here; whatever the probe answered, the result satisfies the planning
/// contract for those flags, an empty candidate list is always rejected with
/// `NoInputPaths`, and a bad quality is never accepted.
pub fn plan_encode(paths: &Vec<String>, options: &GifskiOptions) -> (r: Result<
    EncodePlan,
    GifskiError,
>)
    requires
        paths@.len() <= u32::MAX,
    ensures
        exists|flags: Seq<bool>|
            flags.len() == paths@.len() && #[trigger] plan_post(
                paths.deep_view(),
                flags,
                *options,
                r,
            ),
        paths@.len() == 0 ==> r matches Err(GifskiError::NoInputPaths),
        !quality_valid(options.quality) ==> !(r matches Ok(_)),
        r matches Ok(plan) ==> {
            &&& plan.settings == spec_settings(*options)
            &&& plan.frames@.len() == plan.total_frames as int
            &&& plan.total_frames > 0
        },
{
    let flags = probe_paths(paths);
    let r = plan_encode_with(paths, &flags, options);
    proof {
        assert(paths.deep_view().len() == paths@.len());
        assert(flags@.len() == paths@.len() && plan_post(
            paths.deep_view(),
            flags@,
            *options,
            r,
        ));
    }
    r
}

} // verus!
