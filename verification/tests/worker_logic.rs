//! Worker decisions on concrete values: strategy dispatch, the tool's
//! progress stream, output-file discovery, the direct byte-stream
//! arithmetic, and the error taxonomy.

use tanin::controller::DownloadJob;
use tanin::queue::DownloadEvent;
use tanin::queue::Percent;
use tanin::text::first_present_candidate;
use tanin::worker::DownloadPlan;
use tanin::worker::FailureKind;
use tanin::worker::HttpTransfer;
use tanin::worker::candidate_names;
use tanin::worker::failure_event;
use tanin::worker::output_stem;
use tanin::worker::parse_progress_line;
use tanin::worker::plan_download;
use tanin::worker::tool_outcome_event;

fn job(name: &str, target: Option<&str>, tool_available: bool) -> DownloadJob {
    DownloadJob {
        name: name.to_string(),
        category: "fx".to_string(),
        icon: "🎵".to_string(),
        url: "https://example.org/item".to_string(),
        target_filename: target.map(|t| t.to_string()),
        tool_available,
    }
}

#[test]
fn progress_line_with_fraction() {
    let p = parse_progress_line("[download]  45.2% of 3.00MiB");
    assert_eq!(p, Some(Percent { hundredths: 4520 }));
}

#[test]
fn line_without_percent_sign_reports_nothing() {
    assert_eq!(parse_progress_line("[download] Destination: foo.webm"), None);
}

#[test]
fn progress_line_with_whole_number() {
    let p = parse_progress_line("[download] 100% of 1.0MiB");
    assert_eq!(p, Some(Percent { hundredths: 10000 }));
}

#[test]
fn unrelated_lines_are_skipped() {
    assert_eq!(parse_progress_line("[ExtractAudio] Destination: x.opus"), None);
    assert_eq!(parse_progress_line("[download] N/A% of 1.0MiB"), None);
    assert_eq!(parse_progress_line(""), None);
}

#[test]
fn discovery_takes_the_first_present_candidate() {
    let names = candidate_names("foo");
    assert_eq!(names, vec!["foo.opus", "foo.m4a", "foo.mp3", "foo.wav", "foo.ogg"]);
    // foo.mp3 exists even though foo.opus, tried first, does not.
    let present = vec![false, false, true, false, false];
    assert_eq!(first_present_candidate(&names, &present), Some("foo.mp3".to_string()));
}

#[test]
fn discovery_with_no_match_finds_nothing() {
    let names = candidate_names("foo");
    let present = vec![false, false, false, false, false];
    assert_eq!(first_present_candidate(&names, &present), None);
    let e = failure_event(FailureKind::OutputMissing, "");
    assert_eq!(e, DownloadEvent::Error("Download success but file not found.".to_string()));
}

#[test]
fn a_found_file_becomes_a_success_event() {
    let j = job("Rain", None, true);
    let e = tool_outcome_event(&j, Some("/data/sounds/Rain.opus".to_string()));
    match e {
        DownloadEvent::Success(name, category, path, icon, url) => {
            assert_eq!(name, "Rain");
            assert_eq!(category, "fx");
            assert_eq!(path, "/data/sounds/Rain.opus");
            assert_eq!(icon, "🎵");
            assert_eq!(url, "https://example.org/item");
        }
        other => panic!("expected a success event, got {:?}", other),
    }
}

#[test]
fn a_missing_file_becomes_the_not_found_error() {
    let j = job("Rain", None, true);
    let e = tool_outcome_event(&j, None);
    assert_eq!(e, DownloadEvent::Error("Download success but file not found.".to_string()));
}

#[test]
fn direct_progress_with_known_length() {
    let mut t = HttpTransfer::start(Some(1000));
    let mut seen = Vec::new();
    for _ in 0..4 {
        if let Some(p) = t.on_chunk(250) {
            seen.push(p.hundredths);
        }
    }
    assert_eq!(seen, vec![2500, 5000, 7500, 10000]);
}

#[test]
fn direct_progress_without_length_is_silent() {
    let mut t = HttpTransfer::start(None);
    assert_eq!(t.on_chunk(250), None);
    assert_eq!(t.on_chunk(250), None);
    assert_eq!(t.downloaded, 500);
    // A zero-length header counts as unknown as well.
    let mut z = HttpTransfer::start(Some(0));
    assert_eq!(z.on_chunk(100), None);
}

#[test]
fn direct_progress_is_capped_at_one_hundred_percent() {
    let mut t = HttpTransfer::start(Some(100));
    assert_eq!(t.on_chunk(250), Some(Percent { hundredths: 10000 }));
}

#[test]
fn tool_plan_carries_the_exact_invocation() {
    let plan = plan_download(&job("Rain", Some("rain.ogg"), true), "/data/sounds");
    match plan {
        DownloadPlan::Tool { args, stem } => {
            assert_eq!(stem, "rain");
            assert_eq!(
                args,
                vec![
                    "--ignore-config",
                    "--no-playlist",
                    "--force-overwrites",
                    "-x",
                    "--audio-format",
                    "opus",
                    "-f",
                    "ba[ext=webm]/ba",
                    "-o",
                    "/data/sounds/rain.%(ext)s",
                    "--newline",
                    "--progress",
                    "https://example.org/item",
                ]
            );
        }
        other => panic!("expected the tool strategy, got {:?}", other),
    }
}

#[test]
fn direct_plan_uses_the_known_file_name_verbatim() {
    let plan = plan_download(&job("Rain", Some("rain.ogg"), false), "/data/sounds");
    match plan {
        DownloadPlan::Direct { url, final_path } => {
            assert_eq!(url, "https://example.org/item");
            assert_eq!(final_path, "/data/sounds/rain.ogg");
        }
        other => panic!("expected the direct strategy, got {:?}", other),
    }
}

#[test]
fn direct_plan_without_file_name_is_rejected() {
    let plan = plan_download(&job("Rain", None, false), "/data/sounds");
    match plan {
        DownloadPlan::Reject { message } => {
            assert_eq!(message, "yt-dlp is missing and no filename provided for direct download.");
        }
        other => panic!("expected a rejection, got {:?}", other),
    }
}

#[test]
fn ad_hoc_names_are_sanitized_into_stems() {
    assert_eq!(output_stem(" My Sound!! ", &None), "My_Sound__");
    assert_eq!(output_stem("Rain", &Some("clip.tar.mp3".to_string())), "clip.tar");
    assert_eq!(output_stem("Rain", &Some(".hidden".to_string())), ".hidden");
    assert_eq!(output_stem("Rain", &Some("".to_string())), "unknown");
}

#[test]
fn failure_messages_carry_their_cause() {
    assert_eq!(
        failure_event(FailureKind::Request, "connection refused"),
        DownloadEvent::Error("Direct download failed: connection refused".to_string())
    );
    assert_eq!(
        failure_event(FailureKind::CreateFile, "permission denied"),
        DownloadEvent::Error("Failed to create file: permission denied".to_string())
    );
    assert_eq!(
        failure_event(FailureKind::WriteFile, "disk full"),
        DownloadEvent::Error("Failed to write to file: disk full".to_string())
    );
    assert_eq!(
        failure_event(FailureKind::ReadBody, "reset"),
        DownloadEvent::Error("Download failed: reset".to_string())
    );
    assert_eq!(
        failure_event(FailureKind::CreateDir, "read-only"),
        DownloadEvent::Error("Error creating directory: read-only".to_string())
    );
    assert_eq!(
        failure_event(FailureKind::SpawnTool, "not found"),
        DownloadEvent::Error("Failed to start yt-dlp: not found".to_string())
    );
    assert_eq!(
        failure_event(FailureKind::WaitTool, "interrupted"),
        DownloadEvent::Error("Failed to wait on child: interrupted".to_string())
    );
    assert_eq!(
        failure_event(FailureKind::NoDataDir, ""),
        DownloadEvent::Error("Could not determine data directory.".to_string())
    );
}

#[test]
fn ad_hoc_direct_download_without_length_header() {
    // An ad-hoc task whose name carries spaces and punctuation, with a known
    // target file name, streamed without a length header: no progress
    // events, then one success whose path matches the known file name.
    let j = job("My Sound!!", Some("mysound.ogg"), false);
    let plan = plan_download(&j, "/data/sounds");
    let final_path = match plan {
        DownloadPlan::Direct { final_path, .. } => final_path,
        other => panic!("expected the direct strategy, got {:?}", other),
    };
    assert_eq!(final_path, "/data/sounds/mysound.ogg");

    let mut transfer = HttpTransfer::start(None);
    let mut progress_events = 0;
    let mut remaining = 500u64;
    while remaining > 0 {
        let chunk = remaining.min(250);
        if transfer.on_chunk(chunk).is_some() {
            progress_events += 1;
        }
        remaining -= chunk;
    }
    assert_eq!(progress_events, 0);
    assert_eq!(transfer.downloaded, 500);

    let success = DownloadEvent::Success(
        j.name.clone(),
        j.category.clone(),
        final_path.clone(),
        j.icon.clone(),
        j.url.clone(),
    );
    match success {
        DownloadEvent::Success(name, _, path, _, _) => {
            assert_eq!(name, "My Sound!!");
            assert_eq!(path, "/data/sounds/mysound.ogg");
        }
        other => panic!("expected a success event, got {:?}", other),
    }
}
