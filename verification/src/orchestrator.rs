//! Reconciling the two stages' outcomes into the run's single result.
use vstd::prelude::*;

use crate::error::GifskiError;

verus! {

use vstd::string::StringExecFns;

/// Everything reconciliation promises of the run's result, given the planned
/// frame count, the collector stage's outcome (`None` when its unit of
/// concurrency terminated abnormally instead of returning a tally), and the
/// writer stage's error, if it reported one.
///
/// An abnormal collector end is surfaced as `WriteFailed`; a tally equal to
/// the total means every frame failed and yields `NoFramesAdded`, taking
/// precedence over whatever the writer reported; otherwise a writer error is
/// surfaced as `WriteFailed`; otherwise the run succeeded.
pub open spec fn reconcile_post(
    total_frames: u32,
    collector_result: Option<u32>,
    write_error: Option<String>,
    r: Result<(), GifskiError>,
) -> bool {
    match collector_result {
        None => r matches Err(e) && (e matches GifskiError::WriteFailed { reason } && reason@
            == "collector thread panicked"@),
        Some(failed) => if failed == total_frames {
            r matches Err(e) && (e matches GifskiError::NoFramesAdded { failed: f, total: t } && f
                == failed && t == total_frames)
        } else {
            match write_error {
                Some(w) => r matches Err(e) && (e matches GifskiError::WriteFailed { reason }
                    && reason@ == w@),
                None => r matches Ok(_),
            }
        },
    }
}

/// Applies the failure policy once both stages have terminated.
pub fn reconcile(
    total_frames: u32,
    collector_result: Option<u32>,
    write_error: Option<String>,
) -> (r: Result<(), GifskiError>)
    ensures
        reconcile_post(total_frames, collector_result, write_error, r),
{
    match collector_result {
        None => Err(
            GifskiError::WriteFailed { reason: String::from_str("collector thread panicked") },
        ),
        Some(failed) => {
            if failed == total_frames {
                Err(GifskiError::NoFramesAdded { failed, total: total_frames })
            } else {
                match write_error {
                    Some(reason) => Err(GifskiError::WriteFailed { reason }),
                    None => Ok(()),
                }
            }
        },
    }
}

/// If every planned frame failed submission, the run reports `NoFramesAdded`
/// carrying both counts, whatever the writer stage reported: a destination
/// file from such a run must not be treated as valid output.
pub proof fn lemma_all_failed_is_no_frames_added(
    total_frames: u32,
    write_error: Option<String>,
    r: Result<(), GifskiError>,
)
    requires
        reconcile_post(total_frames, Some(total_frames), write_error, r),
    ensures
        r matches Err(e) && (e matches GifskiError::NoFramesAdded { failed: f, total: t } && f
            == total_frames && t == total_frames),
{
}

/// If only a strict subset of the frames failed submission and the writer
/// stage reported no error, the run succeeds: per-frame failures are
/// recovered, tallied and never surfaced as an error on their own.
pub proof fn lemma_partial_failure_still_succeeds(
    total_frames: u32,
    failed: u32,
    r: Result<(), GifskiError>,
)
    requires
        failed < total_frames,
        reconcile_post(total_frames, Some(failed), None, r),
    ensures
        r matches Ok(_),
{
}

} // verus!
