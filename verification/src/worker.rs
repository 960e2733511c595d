//! The download worker's decision logic, verified end to end: which
//! acquisition strategy a job uses, the exact subprocess invocation for the
//! external extraction tool, the parsing of its progress stream, the
//! discovery of its output file, the direct byte-stream fallback with its
//! progress arithmetic, and the taxonomy of terminal error messages.
//!
//! The worker's outside work — spawning the subprocess, reading its pipes,
//! issuing the HTTP request, writing the file — is performed by the caller,
//! which feeds what it saw back into these functions.

use vstd::prelude::*;
use vstd::string::StrSliceExecFns;
use vstd::string::StringExecFns;

use crate::assets::path_exists;
use crate::controller::DownloadJob;
use crate::queue::DownloadEvent;
use crate::queue::Percent;
use crate::text::contains_seq;
use crate::text::find_char;
use crate::text::first_ch;
use crate::text::first_found;
use crate::text::first_present_candidate;
use crate::text::file_stem;
use crate::text::join_path;
use crate::text::last_ch;
use crate::text::parse_hundredths;
use crate::text::rfind_char;
use crate::text::sanitize_name;
use crate::text::sanitize_spec;
use crate::text::stem_spec;
use crate::text::str_contains;
use crate::text::token_hundredths;
use crate::text::token_valid;
use crate::text::trim_spec;
use crate::text::trim_str;

verus! {

// ---------------------------------------------------------------------------
// Output naming
// ---------------------------------------------------------------------------

/// The stem output files are named after: the target file name's stem when a
/// target is known (or a fixed fallback when that stem is empty), otherwise
/// the trimmed task name with every non-alphanumeric character replaced by
/// an underscore.
pub open spec fn output_stem_spec(name: Seq<char>, target: Option<Seq<char>>) -> Seq<char> {
    match target {
        Some(tf) => if stem_spec(tf).len() == 0 {
            "unknown"@
        } else {
            stem_spec(tf)
        },
        None => sanitize_spec(trim_spec(name)),
    }
}

/// Computes the output stem for a job's name and optional target file name.
pub fn output_stem(name: &str, target_filename: &Option<String>) -> (r: String)
    ensures
        r@ == output_stem_spec(name@, target_filename.deep_view()),
{
    match target_filename {
        Some(tf) => {
            let stem = file_stem(tf.as_str());
            if stem.as_str().is_empty() {
                String::from_str("unknown")
            } else {
                stem
            }
        },
        None => {
            let trimmed = trim_str(name);
            sanitize_name(trimmed.as_str())
        },
    }
}

// ---------------------------------------------------------------------------
// Strategy dispatch
// ---------------------------------------------------------------------------

/// The exact subprocess invocation of the extraction tool: single-item
/// extraction, forced overwrite, best-audio-only with a preferred codec and
/// a webm-audio-or-fallback selector, the output template, and
/// newline-delimited machine-parsable progress, followed by the source URL.
pub open spec fn tool_args_spec(template: Seq<char>, url: Seq<char>) -> Seq<Seq<char>> {
    seq![
        "--ignore-config"@,
        "--no-playlist"@,
        "--force-overwrites"@,
        "-x"@,
        "--audio-format"@,
        "opus"@,
        "-f"@,
        "ba[ext=webm]/ba"@,
        "-o"@,
        template,
        "--newline"@,
        "--progress"@,
        url,
    ]
}

/// The output template handed to the tool: the stem under the storage
/// directory, with the engine-chosen extension placeholder.
pub open spec fn tool_template_spec(sounds_dir: Seq<char>, stem: Seq<char>) -> Seq<char> {
    sounds_dir + "/"@ + stem + ".%(ext)s"@
}

/// What a worker does for its job, decided once at start: invoke the
/// extraction tool, stream the bytes directly, or fail immediately.
#[derive(Debug)]
pub enum DownloadPlan {
    /// Invoke the extraction tool with exactly these arguments; on success,
    /// probe for `<stem>.<ext>` under the storage directory.
    Tool { args: Vec<String>, stem: String },
    /// Stream the URL's bytes into the known file.
    Direct { url: String, final_path: String },
    /// No strategy applies; emit this terminal error.
    Reject { message: String },
}

/// Chooses the acquisition strategy for one job: the extraction tool when it
/// is available; otherwise the direct byte stream, which requires a known
/// target file name; otherwise an immediate error.
pub fn plan_download(job: &DownloadJob, sounds_dir: &str) -> (r: DownloadPlan)
    ensures
        job.tool_available ==> (r matches DownloadPlan::Tool { args, stem } && stem@
            == output_stem_spec(job.name@, job.target_filename.deep_view()) && args.deep_view()
            == tool_args_spec(tool_template_spec(sounds_dir@, stem@), job.url@)),
        !job.tool_available && (job.target_filename matches Some(tf)) ==> (r
            matches DownloadPlan::Direct { url, final_path } && url@ == job.url@ && final_path@
            == sounds_dir@ + "/"@ + job.target_filename.unwrap()@),
        !job.tool_available && job.target_filename is None ==> (r matches DownloadPlan::Reject {
            message,
        } && message@ == failure_message(FailureKind::NoFilename, Seq::empty())),
{
    if job.tool_available {
        let stem = output_stem(job.name.as_str(), &job.target_filename);
        let mut template = join_path(sounds_dir, stem.as_str());
        template.append(".%(ext)s");
        let mut args: Vec<String> = Vec::new();
        args.push(String::from_str("--ignore-config"));
        args.push(String::from_str("--no-playlist"));
        args.push(String::from_str("--force-overwrites"));
        args.push(String::from_str("-x"));
        args.push(String::from_str("--audio-format"));
        args.push(String::from_str("opus"));
        args.push(String::from_str("-f"));
        args.push(String::from_str("ba[ext=webm]/ba"));
        args.push(String::from_str("-o"));
        args.push(template);
        args.push(String::from_str("--newline"));
        args.push(String::from_str("--progress"));
        args.push(job.url.clone());
        proof {
            assert(args.deep_view() =~= tool_args_spec(
                tool_template_spec(sounds_dir@, stem@),
                job.url@,
            ));
        }
        DownloadPlan::Tool { args, stem }
    } else {
        match &job.target_filename {
            Some(tf) => DownloadPlan::Direct {
                url: job.url.clone(),
                final_path: join_path(sounds_dir, tf.as_str()),
            },
            None => DownloadPlan::Reject { message: no_filename_message() },
        }
    }
}

// ---------------------------------------------------------------------------
// Error taxonomy
// ---------------------------------------------------------------------------

/// The ways a worker fails; each carries a fixed message, some with the
/// underlying cause appended.
#[derive(Debug, Clone, Copy, PartialEq, Eq, Structural)]
pub enum FailureKind {
    /// The per-host data directory could not be determined.
    NoDataDir,
    /// Creating the storage directory failed.
    CreateDir,
    /// The extraction tool could not be spawned.
    SpawnTool,
    /// Waiting for the extraction tool's exit failed.
    WaitTool,
    /// The tool exited successfully but no output file was found.
    OutputMissing,
    /// The extraction tool is missing and the task has no target file name.
    NoFilename,
    /// The direct request failed.
    Request,
    /// Creating the output file failed.
    CreateFile,
    /// Writing a chunk to the output file failed.
    WriteFile,
    /// Reading the response body failed.
    ReadBody,
}

/// The message each failure carries; `detail` is the underlying cause, shown
/// where the message has a `: ` tail.
pub open spec fn failure_message(kind: FailureKind, detail: Seq<char>) -> Seq<char> {
    match kind {
        FailureKind::NoDataDir => "Could not determine data directory."@,
        FailureKind::CreateDir => "Error creating directory: "@ + detail,
        FailureKind::SpawnTool => "Failed to start yt-dlp: "@ + detail,
        FailureKind::WaitTool => "Failed to wait on child: "@ + detail,
        FailureKind::OutputMissing => "Download success but file not found."@,
        FailureKind::NoFilename => "yt-dlp is missing and no filename provided for direct download."@,
        FailureKind::Request => "Direct download failed: "@ + detail,
        FailureKind::CreateFile => "Failed to create file: "@ + detail,
        FailureKind::WriteFile => "Failed to write to file: "@ + detail,
        FailureKind::ReadBody => "Download failed: "@ + detail,
    }
}

fn no_filename_message() -> (r: String)
    ensures
        r@ == failure_message(FailureKind::NoFilename, Seq::empty()),
{
    String::from_str("yt-dlp is missing and no filename provided for direct download.")
}

/// The terminal error event a failure turns into.
pub fn failure_event(kind: FailureKind, detail: &str) -> (e: DownloadEvent)
    ensures
        e matches DownloadEvent::Error(m) && m@ == failure_message(kind, detail@),
{
    let message = match kind {
        FailureKind::NoDataDir => String::from_str("Could not determine data directory."),
        FailureKind::CreateDir => String::from_str("Error creating directory: ").concat(detail),
        FailureKind::SpawnTool => String::from_str("Failed to start yt-dlp: ").concat(detail),
        FailureKind::WaitTool => String::from_str("Failed to wait on child: ").concat(detail),
        FailureKind::OutputMissing => String::from_str("Download success but file not found."),
        FailureKind::NoFilename => no_filename_message(),
        FailureKind::Request => String::from_str("Direct download failed: ").concat(detail),
        FailureKind::CreateFile => String::from_str("Failed to create file: ").concat(detail),
        FailureKind::WriteFile => String::from_str("Failed to write to file: ").concat(detail),
        FailureKind::ReadBody => String::from_str("Download failed: ").concat(detail),
    };
    DownloadEvent::Error(message)
}

// ---------------------------------------------------------------------------
// Extraction-tool progress stream
// ---------------------------------------------------------------------------

/// The part of the line before its first percent sign.
pub open spec fn progress_prefix(line: Seq<char>) -> Seq<char> {
    line.subrange(0, first_ch(line, '%'))
}

/// The whitespace-delimited token immediately before the first percent sign.
pub open spec fn progress_token(line: Seq<char>) -> Seq<char> {
    let pre = progress_prefix(line);
    pre.subrange(last_ch(pre, ' ') + 1, pre.len() as int)
}

/// A line of the tool's output reports progress when it carries the download
/// marker and a percent sign, and the token before the percent sign — after
/// the last space — is a valid percentage.
pub open spec fn line_reports_progress(line: Seq<char>) -> bool {
    &&& contains_seq(line, "[download]"@)
    &&& first_ch(line, '%') < line.len()
    &&& last_ch(progress_prefix(line), ' ') >= 0
    &&& token_valid(progress_token(line))
}

/// Parses one line of the tool's progress stream. Lines that do not report
/// progress — no download marker, no percent sign, or a malformed token —
/// are skipped, which is not an error.
pub fn parse_progress_line(line: &str) -> (r: Option<Percent>)
    ensures
        r is Some <==> line_reports_progress(line@),
        r matches Some(p) ==> p.hundredths as int == token_hundredths(progress_token(line@))
            && p.valid(),
{
    if !str_contains(line, "[download]") {
        return None;
    }
    let pct = match find_char(line, '%') {
        Some(i) => i,
        None => {
            return None;
        },
    };
    let pre = line.substring_char(0, pct);
    proof {
        assert(pre@ == progress_prefix(line@));
    }
    let last_space = match rfind_char(pre, ' ') {
        Some(i) => i,
        None => {
            return None;
        },
    };
    let pre_len = pre.unicode_len();
    let token = pre.substring_char(last_space + 1, pre_len);
    proof {
        assert(token@ == progress_token(line@));
    }
    match parse_hundredths(token) {
        Some(v) => Some(Percent { hundredths: v }),
        None => None,
    }
}

// ---------------------------------------------------------------------------
// Output-file discovery
// ---------------------------------------------------------------------------

/// The candidate extensions probed after the tool succeeds, in order.
pub open spec fn candidate_exts() -> Seq<Seq<char>> {
    seq![".opus"@, ".m4a"@, ".mp3"@, ".wav"@, ".ogg"@]
}

/// The file names probed after the tool succeeds, in order: the stem with
/// each candidate extension.
pub fn candidate_names(stem: &str) -> (r: Vec<String>)
    ensures
        r.deep_view().len() == candidate_exts().len(),
        forall|k: int|
            0 <= k < candidate_exts().len() ==> r.deep_view()[k] == stem@ + candidate_exts()[k],
{
    let mut v: Vec<String> = Vec::new();
    v.push(stem.to_owned().concat(".opus"));
    v.push(stem.to_owned().concat(".m4a"));
    v.push(stem.to_owned().concat(".mp3"));
    v.push(stem.to_owned().concat(".wav"));
    v.push(stem.to_owned().concat(".ogg"));
    proof {
        assert forall|k: int| 0 <= k < candidate_exts().len() implies v.deep_view()[k] == stem@
            + candidate_exts()[k] by {
            assert(v.deep_view()[k] == v@[k]@);
        }
    }
    v
}

/// The path of one candidate under the storage directory.
pub open spec fn candidate_path(sounds_dir: Seq<char>, stem: Seq<char>, k: int) -> Seq<char> {
    sounds_dir + "/"@ + stem + candidate_exts()[k]
}

/// All candidate paths, in probe order.
pub open spec fn candidate_paths(sounds_dir: Seq<char>, stem: Seq<char>) -> Seq<Seq<char>> {
    Seq::new(candidate_exts().len(), |k: int| candidate_path(sounds_dir, stem, k))
}

/// Probes the storage directory for `<stem>.<ext>` across the candidate
/// extensions and selects the first path present on disk. Which files exist
/// depends on the disk, so the contract fixes the selection for every
/// outcome of the five probes: the first present candidate is returned, and
/// `None` comes back exactly when none of them is present.
pub fn resolve_output_file(sounds_dir: &str, stem: &str) -> (r: Option<String>)
    ensures
        exists|present: Seq<bool>|
            #![auto]
            present.len() == candidate_exts().len() && first_found(
                candidate_paths(sounds_dir@, stem@),
                present,
                r,
            ),
{
    let names = candidate_names(stem);
    let mut paths: Vec<String> = Vec::new();
    let mut k: usize = 0;
    while k < names.len()
        invariant
            names.deep_view().len() == candidate_exts().len(),
            forall|j: int|
                0 <= j < candidate_exts().len() ==> names.deep_view()[j] == stem@
                    + candidate_exts()[j],
            0 <= k <= names@.len(),
            paths@.len() == k as int,
            forall|j: int|
                #![auto]
                0 <= j < k ==> paths@[j]@ == candidate_path(sounds_dir@, stem@, j),
        decreases names@.len() - k,
    {
        let p = join_path(sounds_dir, names[k].as_str());
        proof {
            assert(names@[k as int]@ == names.deep_view()[k as int]);
            assert(p@ =~= candidate_path(sounds_dir@, stem@, k as int));
        }
        paths.push(p);
        k = k + 1;
    }
    let mut present: Vec<bool> = Vec::new();
    let mut i: usize = 0;
    while i < paths.len()
        invariant
            paths@.len() == candidate_exts().len(),
            forall|j: int|
                #![auto]
                0 <= j < paths@.len() ==> paths@[j]@ == candidate_path(sounds_dir@, stem@, j),
            0 <= i <= paths@.len(),
            present@.len() == i as int,
        decreases paths@.len() - i,
    {
        let e = path_exists(&paths[i]);
        present.push(e);
        i = i + 1;
    }
    let r = first_present_candidate(&paths, &present);
    proof {
        assert(paths.deep_view() =~= candidate_paths(sounds_dir@, stem@));
        assert(present@.len() == candidate_exts().len() && first_found(
            candidate_paths(sounds_dir@, stem@),
            present@,
            r,
        ));
    }
    r
}

/// The terminal event for one discovery result: a found file yields success
/// with the job's fields and exactly that path; no file yields exactly the
/// file-not-found error.
pub fn tool_outcome_event(job: &DownloadJob, resolved: Option<String>) -> (e: DownloadEvent)
    ensures
        resolved matches Some(p) ==> (e matches DownloadEvent::Success(n, c, f, ic, u) && n@
            == job.name@ && c@ == job.category@ && f@ == p@ && ic@ == job.icon@ && u@ == job.url@),
        resolved is None ==> (e matches DownloadEvent::Error(m) && m@ == failure_message(
            FailureKind::OutputMissing,
            Seq::empty(),
        )),
{
    match resolved {
        Some(path) => DownloadEvent::Success(
            job.name.clone(),
            job.category.clone(),
            path,
            job.icon.clone(),
            job.url.clone(),
        ),
        None => failure_event(FailureKind::OutputMissing, ""),
    }
}

/// What the exit handler owes once the five probes are decided: success
/// carrying the job's fields and the first present candidate's path, or —
/// when no candidate is present — exactly the file-not-found error.
pub open spec fn tool_exit_outcome(
    job: DownloadJob,
    sounds_dir: Seq<char>,
    stem: Seq<char>,
    present: Seq<bool>,
    e: DownloadEvent,
) -> bool {
    &&& ((forall|k: int| 0 <= k < candidate_exts().len() ==> !present[k]) ==> (e
        matches DownloadEvent::Error(m) && m@ == failure_message(
        FailureKind::OutputMissing,
        Seq::empty(),
    )))
    &&& (forall|k: int|
        #![auto]
        (0 <= k < candidate_exts().len() && present[k] && (forall|j: int|
            0 <= j < k ==> !present[j])) ==> (e matches DownloadEvent::Success(n, c, f, ic, u)
            && n@ == job.name@ && c@ == job.category@ && f@ == candidate_path(sounds_dir, stem, k)
            && ic@ == job.icon@ && u@ == job.url@))
}

/// The terminal event after the extraction tool exits successfully: the
/// first matching output file wins, and a missing file is an error — for
/// every outcome of the probes.
pub fn tool_exit_event(job: &DownloadJob, sounds_dir: &str, stem: &str) -> (e: DownloadEvent)
    ensures
        exists|present: Seq<bool>|
            #![auto]
            present.len() == candidate_exts().len() && tool_exit_outcome(
                *job,
                sounds_dir@,
                stem@,
                present,
                e,
            ),
{
    let resolved = resolve_output_file(sounds_dir, stem);
    let ghost resolved_snapshot = resolved;
    let e = tool_outcome_event(job, resolved);
    proof {
        let present = choose|present: Seq<bool>|
            #![auto]
            present.len() == candidate_exts().len() && first_found(
                candidate_paths(sounds_dir@, stem@),
                present,
                resolved_snapshot,
            );
        assert(tool_exit_outcome(*job, sounds_dir@, stem@, present, e)) by {
            let cands = candidate_paths(sounds_dir@, stem@);
            if forall|k: int| 0 <= k < candidate_exts().len() ==> !present[k] {
                assert(resolved_snapshot is None);
            }
            assert forall|k: int|
                (0 <= k < candidate_exts().len() && present[k] && (forall|j: int|
                    0 <= j < k ==> !present[j])) implies (e matches DownloadEvent::Success(
                n,
                c,
                f,
                ic,
                u,
            ) && n@ == job.name@ && c@ == job.category@ && f@ == candidate_path(
                sounds_dir@,
                stem@,
                k,
            ) && ic@ == job.icon@ && u@ == job.url@) by {
                assert(cands[k] == candidate_path(sounds_dir@, stem@, k));
                assert(resolved_snapshot matches Some(p) && p@ == cands[k]);
            }
        }
    }
    e
}

// ---------------------------------------------------------------------------
// Direct byte-stream strategy
// ---------------------------------------------------------------------------

/// The percentage a byte count amounts to, in hundredths, capped at one
/// hundred percent.
pub open spec fn chunk_progress(downloaded: int, total: int) -> int {
    let raw = downloaded * 10000 / total;
    if raw > 10000 {
        10000
    } else {
        raw
    }
}

/// The running state of a direct byte-stream transfer: how many bytes have
/// arrived and the total from the size header, when one was given. A missing
/// or zero size means the total is unknown and no progress is reported.
pub struct HttpTransfer {
    pub downloaded: u64,
    pub total: Option<u64>,
}

impl HttpTransfer {
    /// A known total is positive.
    pub open spec fn wf(self) -> bool {
        self.total matches Some(t) ==> t > 0
    }

    /// Starts a transfer; a missing or zero size header means no progress
    /// will be reported.
    pub fn start(total_size: Option<u64>) -> (r: Self)
        ensures
            r.wf(),
            r.downloaded == 0,
            r.total == (if total_size matches Some(t) && t > 0 {
                total_size
            } else {
                None::<u64>
            }),
    {
        let total = match total_size {
            Some(t) => if t > 0 {
                Some(t)
            } else {
                None
            },
            None => None,
        };
        HttpTransfer { downloaded: 0, total }
    }

    /// Records `n` more received bytes; when the total is known, reports the
    /// new percentage, exact in hundredths and capped at one hundred.
    pub fn on_chunk(&mut self, n: u64) -> (r: Option<Percent>)
        requires
            old(self).wf(),
            old(self).downloaded + n <= u64::MAX,
        ensures
            final(self).wf(),
            final(self).total == old(self).total,
            final(self).downloaded == old(self).downloaded + n,
            old(self).total matches Some(t) ==> (r matches Some(p) && p.hundredths as int
                == chunk_progress(old(self).downloaded + n, t as int) && p.valid()),
            old(self).total is None ==> r is None,
    {
        self.downloaded = self.downloaded + n;
        match self.total {
            Some(t) => {
                let raw = (self.downloaded as u128) * 10000 / (t as u128);
                let hundredths: u32 = if raw > 10000 {
                    10000
                } else {
                    raw as u32
                };
                Some(Percent { hundredths })
            },
            None => None,
        }
    }
}

} // verus!
