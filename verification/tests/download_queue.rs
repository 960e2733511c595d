//! Queue, scanner, admission and controller behaviour on concrete values.

use tanin::controller::App;
use tanin::controller::missing_download_tasks;
use tanin::queue::DownloadEvent;
use tanin::queue::DownloadStatus;
use tanin::queue::Percent;
use tanin::sound::Sound;
use tanin::sound::default_icon;
use tanin::sound::default_volume_permille;

fn sound(name: &str, file_path: &str, url: Option<&str>) -> Sound {
    Sound {
        id: name.to_lowercase().replace(' ', "_"),
        name: name.to_string(),
        category: "ambient".to_string(),
        file_path: file_path.to_string(),
        volume_permille: default_volume_permille(),
        icon: default_icon(),
        url: url.map(|u| u.to_string()),
        error_state: false,
    }
}

fn empty_app() -> App {
    App::new(Vec::new(), true)
}

#[test]
fn scanner_enqueues_missing_records_with_urls() {
    let sounds = vec![
        sound("Rain", "/sounds/rain.ogg", Some("https://example.org/rain")),
        sound("Wind", "/sounds/wind.ogg", Some("https://example.org/wind")),
    ];
    // Neither target file is present on disk.
    let present = vec![false, false];
    let tasks = missing_download_tasks(&sounds, &present);
    assert_eq!(tasks.len(), 2);
    assert_eq!(tasks[0].name, "Rain");
    assert_eq!(tasks[0].category, "ambient");
    assert_eq!(tasks[0].icon, "🎵");
    assert_eq!(tasks[0].url, "https://example.org/rain");
    assert_eq!(tasks[0].status, DownloadStatus::Pending);
    assert_eq!(tasks[0].target_filename.as_deref(), Some("rain.ogg"));
    assert_eq!(tasks[1].name, "Wind");
    assert_eq!(tasks[1].target_filename.as_deref(), Some("wind.ogg"));
}

#[test]
fn scanner_skips_present_files_whatever_the_url() {
    let sounds = vec![
        sound("Rain", "/sounds/rain.ogg", Some("https://example.org/rain")),
        sound("Wind", "/sounds/wind.ogg", None),
    ];
    let present = vec![true, true];
    let tasks = missing_download_tasks(&sounds, &present);
    assert!(tasks.is_empty());
}

#[test]
fn scanner_skips_records_without_usable_urls() {
    let sounds = vec![
        sound("Rain", "/sounds/rain.ogg", None),
        sound("Wind", "/sounds/wind.ogg", Some("   ")),
        sound("Fire", "/sounds/fire.ogg", Some("https://example.org/fire")),
    ];
    let present = vec![false, false, false];
    let tasks = missing_download_tasks(&sounds, &present);
    assert_eq!(tasks.len(), 1);
    assert_eq!(tasks[0].name, "Fire");
}

#[test]
fn admission_rejects_empty_name() {
    let mut app = empty_app();
    app.add_sound_name = "".to_string();
    app.add_sound_category = "x".to_string();
    app.add_sound_url = "y".to_string();
    app.start_download();
    assert_eq!(app.add_sound_status, "Error: All fields (except icon) are required.");
    assert!(app.download_queue.is_empty());
}

#[test]
fn admission_rejects_empty_category() {
    let mut app = empty_app();
    app.add_sound_name = "a".to_string();
    app.add_sound_category = "".to_string();
    app.add_sound_url = "y".to_string();
    app.start_download();
    assert_eq!(app.add_sound_status, "Error: All fields (except icon) are required.");
    assert!(app.download_queue.is_empty());
}

#[test]
fn admission_rejects_blank_url() {
    let mut app = empty_app();
    app.add_sound_name = "a".to_string();
    app.add_sound_category = "b".to_string();
    app.add_sound_url = "  ".to_string();
    app.start_download();
    assert_eq!(app.add_sound_status, "Error: All fields (except icon) are required.");
    assert!(app.download_queue.is_empty());
}

#[test]
fn admission_enqueues_and_clears_inputs() {
    let mut app = empty_app();
    app.add_sound_name = "My Sound!!".to_string();
    app.add_sound_category = "fx".to_string();
    app.add_sound_icon = "🔔".to_string();
    app.add_sound_url = "  https://example.org/s  ".to_string();
    app.start_download();
    assert_eq!(app.add_sound_status, "Added to download queue.");
    assert_eq!(app.download_queue.len(), 1);
    let task = &app.download_queue[0];
    assert_eq!(task.name, "My Sound!!");
    assert_eq!(task.category, "fx");
    assert_eq!(task.icon, "🔔");
    // The URL is stored trimmed.
    assert_eq!(task.url, "https://example.org/s");
    assert_eq!(task.status, DownloadStatus::Pending);
    assert_eq!(task.target_filename, None);
    assert_eq!(app.add_sound_name, "");
    assert_eq!(app.add_sound_url, "");
    assert_eq!(app.add_sound_category, "fx");
}

#[test]
fn status_moves_from_pending_through_progress_to_done() {
    let mut app = empty_app();
    app.add_sound_name = "Rain".to_string();
    app.add_sound_category = "ambient".to_string();
    app.add_sound_url = "https://example.org/rain".to_string();
    app.start_download();

    let job = app.begin_download(0);
    assert_eq!(app.download_queue[0].status, DownloadStatus::Downloading(Percent { hundredths: 0 }));
    assert_eq!(app.active_download_index, Some(0));
    assert_eq!(job.name, "Rain");
    assert!(job.tool_available);

    let none = app.apply_download_event(DownloadEvent::Progress(Percent { hundredths: 4520 }));
    assert!(none.is_none());
    assert_eq!(
        app.download_queue[0].status,
        DownloadStatus::Downloading(Percent { hundredths: 4520 })
    );
    assert_eq!(app.active_download_index, Some(0));

    let record = app.apply_download_event(DownloadEvent::Success(
        "Rain".to_string(),
        "ambient".to_string(),
        "/data/sounds/rain.opus".to_string(),
        "🎵".to_string(),
        "https://example.org/rain".to_string(),
    ));
    assert_eq!(app.download_queue[0].status, DownloadStatus::Done);
    assert_eq!(app.active_download_index, None);
    let record = record.expect("a successful download yields a record to persist");
    assert_eq!(record.name, "Rain");
    assert_eq!(record.category, "ambient");
    assert_eq!(record.file_path, "/data/sounds/rain.opus");
    assert_eq!(record.icon, "🎵");
    assert_eq!(record.url, "https://example.org/rain");
}

#[test]
fn status_moves_to_error_on_failure_event() {
    let mut app = empty_app();
    app.add_sound_name = "Rain".to_string();
    app.add_sound_category = "ambient".to_string();
    app.add_sound_url = "https://example.org/rain".to_string();
    app.start_download();
    app.begin_download(0);
    let none = app.apply_download_event(DownloadEvent::Error("Download failed: boom".to_string()));
    assert!(none.is_none());
    assert_eq!(
        app.download_queue[0].status,
        DownloadStatus::Error("Download failed: boom".to_string())
    );
    assert_eq!(app.active_download_index, None);
}

#[test]
fn scanner_method_is_inert_without_the_tool() {
    let sounds = vec![sound("Rain", "/nonexistent/rain.ogg", Some("https://example.org/rain"))];
    let mut app = App::new(sounds, false);
    app.check_and_download_missing_files();
    assert!(app.download_queue.is_empty());
}

#[test]
fn the_first_pending_task_is_started_next() {
    let mut app = empty_app();
    assert_eq!(app.next_pending_index(), None);
    for name in ["Rain", "Wind"] {
        app.add_sound_name = name.to_string();
        app.add_sound_category = "ambient".to_string();
        app.add_sound_url = format!("https://example.org/{}", name);
        app.start_download();
    }
    assert_eq!(app.next_pending_index(), Some(0));
    app.begin_download(0);
    app.apply_download_event(DownloadEvent::Error("Download failed: boom".to_string()));
    assert_eq!(app.next_pending_index(), Some(1));
    app.begin_download(1);
    app.apply_download_event(DownloadEvent::Success(
        "Wind".to_string(),
        "ambient".to_string(),
        "/data/sounds/wind.opus".to_string(),
        "🎵".to_string(),
        "https://example.org/Wind".to_string(),
    ));
    assert_eq!(app.next_pending_index(), None);
}

#[test]
fn default_record_values() {
    assert_eq!(default_icon(), "🎵");
    assert_eq!(default_volume_permille(), 500);
    assert_eq!(Percent::zero().hundredths, 0);
}
