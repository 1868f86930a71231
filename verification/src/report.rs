//! Aggregating a partial failure into one report, and classifying a download
//! outcome into its single user-visible message or error.

use vstd::prelude::*;
use vstd::string::*;
use crate::data::{DownloadOutcome, FailedExercise};
use crate::error::CmdError;

verus! {

/// The report line naming one failed exercise.
pub open spec fn failed_line(slug: Seq<char>) -> Seq<char> {
    "\nFailed to download exercise: '"@ + slug + "'"@
}

/// The indented report line holding one failure message.
pub open spec fn message_line(msg: Seq<char>) -> Seq<char> {
    "\n    with message: '"@ + msg + "'"@
}

/// The message lines of the first `n` messages, in order.
pub open spec fn messages_block(msgs: Seq<String>, n: int) -> Seq<char>
    decreases n,
{
    if n <= 0 {
        Seq::empty()
    } else {
        messages_block(msgs, n - 1) + message_line(msgs[n - 1]@)
    }
}

/// The report lines of one failed exercise: its slug line, then one line per
/// message, preserving message order.
pub open spec fn entry_block(f: FailedExercise) -> Seq<char> {
    failed_line(f.ident.slug@) + messages_block(f.messages@, f.messages@.len() as int)
}

/// The report lines of the first `n` failed exercises, in order.
pub open spec fn failed_blocks(fs: Seq<FailedExercise>, n: int) -> Seq<char>
    decreases n,
{
    if n <= 0 {
        Seq::empty()
    } else {
        failed_blocks(fs, n - 1) + entry_block(fs[n - 1])
    }
}

/// The trailing note naming where the successful downloads went.
pub open spec fn success_note(path: Seq<char>) -> Seq<char> {
    "\n\nSuccessful downloads saved to "@ + path
}

/// The whole aggregated report: every failed exercise with its messages, and,
/// exactly when anything downloaded successfully, the trailing note.
pub open spec fn failure_report_spec(fs: Seq<FailedExercise>, any_downloaded: bool, path: Seq<
    char,
>) -> Seq<char> {
    failed_blocks(fs, fs.len() as int) + if any_downloaded {
        success_note(path)
    } else {
        Seq::<char>::empty()
    }
}

/// Builds the aggregated failure report without discarding the partial
/// success: when `any_downloaded` holds, the trailing note names the
/// destination path.
pub fn build_failure_report(fs: &Vec<FailedExercise>, any_downloaded: bool, path: &str) -> (r:
    String)
    ensures
        r@ == failure_report_spec(fs@, any_downloaded, path@),
{
    let mut res = String::new();
    let mut i: usize = 0;
    while i < fs.len()
        invariant
            i <= fs@.len(),
            res@ == failed_blocks(fs@, i as int),
        decreases fs@.len() - i,
    {
        let entry = &fs[i];
        res.append("\nFailed to download exercise: '");
        res.append(entry.ident.slug.as_str());
        res.append("'");
        let mut j: usize = 0;
        while j < entry.messages.len()
            invariant
                j <= entry.messages@.len(),
                entry == fs@[i as int],
                res@ == failed_blocks(fs@, i as int) + failed_line(entry.ident.slug@)
                    + messages_block(entry.messages@, j as int),
        decreases entry.messages@.len() - j,
        {
            res.append("\n    with message: '");
            res.append(entry.messages[j].as_str());
            res.append("'");
            j += 1;
        }
        i += 1;
    }
    if any_downloaded {
        res.append("\n\nSuccessful downloads saved to ");
        res.append(path);
    }
    res
}

/// The fixed success message of a test-mode download.
pub open spec fn test_success_message() -> Seq<char> {
    "Download was successful!"@
}

/// The success message naming the destination path.
pub open spec fn success_message(path: Seq<char>) -> Seq<char> {
    "Exercises downloaded successfully to "@ + path
}

/// Turns one download outcome into its single user-visible message or error:
/// a success yields exactly one success line, a failure yields the whole
/// aggregated report as one `PartialDownloadFailure`.
pub fn handle_download_result(outcome: &DownloadOutcome, test_mode: bool, path: &str) -> (r:
    Result<String, CmdError>)
    ensures
        (outcome matches DownloadOutcome::Success { .. } && test_mode) ==> (r matches Ok(m)
            && m@ == test_success_message()),
        (outcome matches DownloadOutcome::Success { .. } && !test_mode) ==> (r matches Ok(m)
            && m@ == success_message(path@)),
        (outcome matches DownloadOutcome::Failure { downloaded, failed, .. } ==> (r matches Err(e)
            && e matches CmdError::PartialDownloadFailure { report } && report@
            == failure_report_spec(failed@, downloaded@.len() > 0, path@))),
{
    match outcome {
        DownloadOutcome::Success { .. } => {
            if test_mode {
                Ok(String::from_str("Download was successful!"))
            } else {
                Ok(String::from_str("Exercises downloaded successfully to ").concat(path))
            }
        },
        DownloadOutcome::Failure { downloaded, skipped: _, failed } => {
            let report = build_failure_report(failed, downloaded.len() > 0, path);
            Err(CmdError::PartialDownloadFailure { report })
        },
    }
}

} // verus!
