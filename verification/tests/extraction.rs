//! The extraction adapter: invocation arguments, progress coalescing, and
//! the interpretation of a finished tool run.

use clipflow::fetcher::{
    locate_output_index, DownloadError, DownloadProgress, ToolLine, ToolRun, YoutubeFetcher,
    download_band,
};

fn fetcher() -> YoutubeFetcher {
    YoutubeFetcher::new(
        "lib/yt-dlp".to_string(),
        "downloads".to_string(),
        "lib/ffmpeg".to_string(),
    )
    .unwrap()
}

#[test]
fn args_for_default_quality() {
    let f = fetcher();
    let args = f.build_download_args(
        &"https://www.tiktok.com/@a/video/1".to_string(),
        "vid1",
        "best",
        &None,
    );
    assert_eq!(
        args,
        vec![
            "--extractor-args".to_string(),
            "tiktok:skip=feed".to_string(),
            "--output".to_string(),
            "downloads/vid1.mp4".to_string(),
            "--no-part".to_string(),
            "--no-mtime".to_string(),
            "--ffmpeg-location".to_string(),
            "lib/ffmpeg".to_string(),
            "--progress".to_string(),
            "--newline".to_string(),
            "-f".to_string(),
            "bestvideo+bestaudio/best".to_string(),
            "https://www.tiktok.com/@a/video/1".to_string(),
        ]
    );
}

#[test]
fn args_for_audio_and_fingerprint() {
    let f = fetcher();
    let args = f.build_download_args(
        &"https://www.tiktok.com/@a/video/2".to_string(),
        "vid2",
        "audio",
        &Some("chrome110".to_string()),
    );
    assert_eq!(args[3], "downloads/vid2.%(ext)s");
    assert!(args.contains(&"--impersonate=chrome110".to_string()));
    assert!(args.contains(&"-x".to_string()));
    assert!(args.contains(&"--audio-format".to_string()));
    let args = f.build_download_args(
        &"https://www.tiktok.com/@a/video/3".to_string(),
        "vid3",
        "h264",
        &None,
    );
    assert!(args.contains(&"bestvideo[vcodec^=avc]+bestaudio/best[vcodec^=avc]/best".to_string()));
}

#[test]
fn fresh_stems_have_the_output_shape() {
    let f = fetcher();
    let (stem, args) = f.prepare_attempt(
        &"https://www.tiktok.com/@a/video/4".to_string(),
        "best",
        &None,
    );
    assert_eq!(stem.len(), 43);
    assert!(stem.starts_with("output/"));
    assert!(args[3].starts_with("downloads/output/"));
}

#[test]
fn locates_first_stem_match() {
    let listing = vec![
        "other.txt".to_string(),
        "vid1.mp4".to_string(),
        "vid1.part".to_string(),
    ];
    assert_eq!(locate_output_index(&listing, "vid1"), Some(1));
    assert_eq!(locate_output_index(&listing, "vid9"), None);
}

#[test]
fn coalesces_progress() {
    let mut p = DownloadProgress::new(0);
    // increase within the window: suppressed
    assert_eq!(p.on_progress(100, 200), None);
    // increase after the window: forwarded, rescaled into the 0-80 band
    assert_eq!(p.on_progress(500, 600), Some(40));
    // no increase: suppressed even after the window
    assert_eq!(p.on_progress(500, 2_000), None);
    // completion: 100.0% maps to the top of the download band
    assert_eq!(p.on_progress(1_000, 3_000), Some(80));
    assert_eq!(download_band(250), 20);
    assert_eq!(download_band(2_000), 80);
}

#[test]
fn interprets_successful_run() {
    let f = fetcher();
    let run = ToolRun {
        lines: vec![
            ToolLine { text: "[download]  50.0% of 10.00MiB".to_string(), at_ms: 1_000 },
            ToolLine { text: "[download]  52.0% of 10.00MiB".to_string(), at_ms: 1_200 },
            ToolLine { text: "[download] 100.0% of 10.00MiB".to_string(), at_ms: 2_000 },
        ],
        exit_success: true,
        stderr_text: String::new(),
        listing: vec!["vid1.mp4".to_string()],
    };
    let r = f.download_video_from_url(
        "https://www.tiktok.com/@a/video/1".to_string(),
        "vid1",
        "best",
        None,
        &run,
        0,
    );
    // 52% arrives inside the coalescing window and is dropped; the
    // successful exit closes the download phase at the top of its band
    assert_eq!(r.updates, vec![40, 80, 80]);
    match r.outcome {
        Ok(path) => assert_eq!(path, "downloads/vid1.mp4"),
        Err(e) => panic!("unexpected error: {:?}", e),
    }
}

#[test]
fn success_without_file_is_an_error() {
    let f = fetcher();
    let run = ToolRun {
        lines: vec![],
        exit_success: true,
        stderr_text: String::new(),
        listing: vec!["unrelated.bin".to_string()],
    };
    let r = f.download_video_from_url(
        "https://www.tiktok.com/@a/video/1".to_string(),
        "vid1",
        "best",
        None,
        &run,
        0,
    );
    assert!(matches!(r.outcome, Err(DownloadError::FileNotFound)));
    // the exit was successful, so the download phase still closed at 80
    assert_eq!(r.updates, vec![80]);
}

#[test]
fn failure_carries_trimmed_diagnostic() {
    let f = fetcher();
    let run = ToolRun {
        lines: vec![],
        exit_success: false,
        stderr_text: "  Private video \n".to_string(),
        listing: vec![],
    };
    let r = f.download_video_from_url(
        "https://www.tiktok.com/@a/video/1".to_string(),
        "vid1",
        "best",
        None,
        &run,
        0,
    );
    match r.outcome {
        Err(DownloadError::ToolFailed { diagnostic }) => assert_eq!(diagnostic, "Private video"),
        other => panic!("unexpected outcome: {:?}", other),
    }
    assert!(r.updates.is_empty());
}
