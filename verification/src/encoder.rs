//! The encoder boundary: construction of the gifski collector/writer pair and
//! the collector stage that submits frames in order.
use vstd::prelude::*;

use crate::error::GifskiError;
use crate::frames::FrameRequest;
use crate::options::{EncoderSettings, LoopPolicy};
use crate::progress::{progress_trace, GifskiProgress, GifskiProgressCallback, ProgressSink};

verus! {

/// Declares gifski::Collector, the intake half of the encoder, as an opaque
/// outside type so it can stand in signatures here.
#[verifier::external_type_specification]
#[verifier::external_body]
pub struct ExCollector(gifski::Collector);

/// Declares gifski::Writer, the draining half of the encoder, as an opaque
/// outside type so it can stand in signatures here.
#[verifier::external_type_specification]
#[verifier::external_body]
pub struct ExWriter(gifski::Writer);

/// Settings the encoder's constructor accepts: quality in 1..=100 and neither
/// requested dimension above 65536.
pub open spec fn encoder_accepts(s: EncoderSettings) -> bool {
    &&& 1 <= s.quality <= 100
    &&& (s.width matches Some(w) ==> w <= 65536)
    &&& (s.height matches Some(h) ==> h <= 65536)
}

/// Relies on gifski::new: it returns the collector/writer pair exactly when
/// the quality is in 1..=100 and neither dimension exceeds 65536, and fails
/// otherwise; the error is carried over as its debug rendering.
#[verifier::external_body]
fn gifski_new_raw(settings: &EncoderSettings) -> (r: Result<
    (gifski::Collector, gifski::Writer),
    String,
>)
    ensures
        (r matches Ok(_)) <==> encoder_accepts(*settings),
{
    let repeat = match settings.repeat {
        LoopPolicy::Infinite => gifski::Repeat::Infinite,
        LoopPolicy::Finite(n) => gifski::Repeat::Finite(n),
    };
    let s = gifski::Settings {
        width: settings.width,
        height: settings.height,
        quality: settings.quality,
        fast: settings.fast,
        repeat,
    };
    gifski::new(s).map_err(|e| format!("{e:?}"))
}

/// Relies on gifski::Collector::add_frame_png_file: it queues the frame (index,
/// source path and presentation timestamp, handed over in seconds) for the
/// writer half. The call blocks while the intake buffer is full and fails when
/// the writer half is gone, so nothing is promised of the result; a failure is
/// carried over as its debug rendering.
#[verifier::external_body]
fn submit_frame_raw(
    collector: &gifski::Collector,
    frame_index: usize,
    source_path: &String,
    pts_micros: u64,
) -> (r: Result<(), String>) {
    let pts = std::time::Duration::from_micros(pts_micros).as_secs_f64();
    let path = std::path::PathBuf::from(source_path.as_str());
    collector.add_frame_png_file(frame_index, path, pts).map_err(|e| format!("{e:?}"))
}

/// Relies on gifski::Collector's Drop implementation: dropping the collector
/// closes the intake and signals "no more frames", which is what lets the
/// writer half finish its stream.
#[verifier::external_body]
fn close_collector(collector: gifski::Collector) {
    drop(collector);
}

/// Constructs the encoder from validated settings, or reports
/// `EncoderCreationFailed`: construction succeeds exactly when the quality is
/// in 1..=100 and neither requested dimension exceeds 65536.
pub fn create_encoder(settings: &EncoderSettings) -> (r: Result<
    (gifski::Collector, gifski::Writer),
    GifskiError,
>)
    ensures
        (r matches Ok(_)) <==> encoder_accepts(*settings),
        r matches Err(e) ==> e matches GifskiError::EncoderCreationFailed { .. },
{
    match gifski_new_raw(settings) {
        Ok(pair) => Ok(pair),
        Err(reason) => Err(GifskiError::EncoderCreationFailed { reason }),
    }
}

/// The collector stage: submits every frame to the encoder in order, tallies
/// per-frame failures without aborting, reports progress only for successful
/// submissions, and finally signals "no more frames".
///
/// Exactly `total_frames` submissions are attempted; the returned tally plus
/// the number of delivered progress events always add up to `total_frames`,
/// and the delivered events are precisely 1, 2, ..., `total_frames - tally`,
/// whatever the encoder answered for each frame.
pub fn run_collector<C: GifskiProgressCallback>(
    collector: gifski::Collector,
    frames: Vec<FrameRequest>,
    total_frames: u32,
    sink: ProgressSink<C>,
) -> (r: (u32, ProgressSink<C>))
    requires
        frames@.len() == total_frames as int,
    ensures
        r.0 <= total_frames,
        r.1.emitted@ == sink.emitted@ + progress_trace((total_frames - r.0) as nat, total_frames),
{
    let ghost initial = sink.emitted@;
    let mut failed: u32 = 0;
    let mut submitted: u32 = 0;
    let mut sink = sink;
    let mut i: usize = 0;
    proof {
        assert(initial + progress_trace(0, total_frames) =~= initial);
    }
    while i < frames.len()
        invariant
            i <= frames@.len(),
            frames@.len() == total_frames as int,
            failed as int + submitted as int == i as int,
            sink.emitted@ == initial + progress_trace(submitted as nat, total_frames),
        decreases frames@.len() - i,
    {
        let frame = &frames[i];
        let outcome = submit_frame_raw(
            &collector,
            frame.index as usize,
            &frame.source_path,
            frame.pts_micros,
        );
        match outcome {
            Ok(_) => {
                submitted = submitted + 1;
                let event = GifskiProgress { frames_processed: submitted, total_frames };
                sink.emit(event);
                proof {
                    assert(sink.emitted@ =~= initial + progress_trace(
                        submitted as nat,
                        total_frames,
                    ));
                }
            },
            Err(_reason) => {
                failed = failed + 1;
            },
        }
        i = i + 1;
    }
    close_collector(collector);
    (failed, sink)
}

} // verus!
