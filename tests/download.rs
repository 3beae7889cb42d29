use grabby::gallery_dl::GalleryDlDownloader;
use grabby::media::{Action, MediaDownloader};
use grabby::types::{
    Backend, DownloadError, FetchError, ItemFailure, MediaFile, MediaInfo, MediaMetadata, ToolRun,
};
use grabby::ytdlp::{StreamStep, YtDlpDownloader};

fn metadata(id: &str, ext: &str) -> MediaMetadata {
    MediaMetadata {
        title: "t".to_string(),
        id: id.to_string(),
        thumbnail: None,
        duration: None,
        author: None,
        likes: None,
        format_ext: ext.to_string(),
    }
}

fn info(url: &str) -> MediaInfo {
    MediaInfo {
        url: url.to_string(),
        files: vec![MediaFile { filename: "v.mp4".to_string(), data: vec![1, 2, 3] }],
        metadata: metadata("v", "mp4"),
    }
}

#[test]
fn partial_fetch_keeps_listing_positions() {
    let urls = vec!["u0".to_string(), "u1".to_string(), "u2".to_string()];
    let fetched = vec![
        Ok(vec![1u8]),
        Err(FetchError::NetworkError("reset".to_string())),
        Ok(vec![3u8, 3]),
    ];
    let r = GalleryDlDownloader::new()
        .collect_items("http://page", metadata("abc", "jpg"), &urls, &fetched)
        .unwrap();
    assert_eq!(r.url, "http://page");
    assert_eq!(r.files.len(), 2);
    assert_eq!(r.files[0].filename, "abc.jpg");
    assert_eq!(r.files[0].data, vec![1u8]);
    assert_eq!(r.files[1].filename, "abc_2.jpg");
    assert_eq!(r.files[1].data, vec![3u8, 3]);
    assert_eq!(r.metadata.id, "abc");
}

#[test]
fn every_item_failing_fails_the_request() {
    let urls = vec!["u0".to_string(), "u1".to_string()];
    let fetched = vec![Err(FetchError::HttpStatus(404)), Ok(Vec::new())];
    let r = GalleryDlDownloader::new().collect_items("p", metadata("a", "jpg"), &urls, &fetched);
    assert_eq!(
        r.unwrap_err(),
        DownloadError::AllItemsFailed(vec![
            ItemFailure { url: "u0".to_string(), cause: FetchError::HttpStatus(404) },
            ItemFailure { url: "u1".to_string(), cause: FetchError::EmptyBody },
        ])
    );
}

#[test]
fn item_filenames() {
    let m = metadata("id", "png");
    assert_eq!(GalleryDlDownloader::item_filename(&m, 0), "id.png");
    assert_eq!(GalleryDlDownloader::item_filename(&m, 1), "id_1.png");
    assert_eq!(GalleryDlDownloader::item_filename(&m, 12), "id_12.png");
}

#[test]
fn fallback_to_second_backend() {
    let d = MediaDownloader::with_order(vec![Backend::SingleStream, Backend::MultiItem]);
    let (mut session, first) = d.start("http://x");
    assert!(matches!(first, Action::Attempt(Backend::SingleStream)));
    let next = session.advance(Err(DownloadError::DownloadStreamFailed("boom".to_string())));
    assert!(matches!(next, Action::Attempt(Backend::MultiItem)));
    match session.advance(Ok(info("http://x"))) {
        Action::Deliver(m) => assert_eq!(m.url, "http://x"),
        other => panic!("unexpected {:?}", other),
    }
    let failures = session.failure_list();
    assert_eq!(failures.len(), 1);
    assert_eq!(failures[0].backend, Backend::SingleStream);
    assert_eq!(failures[0].error, DownloadError::DownloadStreamFailed("boom".to_string()));
}

#[test]
fn all_backends_failing_lists_each_in_order() {
    let d = MediaDownloader::new();
    assert_eq!(d.backends(), &vec![Backend::MultiItem, Backend::SingleStream]);
    let (mut session, first) = d.start("http://x");
    assert!(matches!(first, Action::Attempt(Backend::MultiItem)));
    assert!(matches!(session.advance(Err(DownloadError::NoMediaFound)), Action::Attempt(Backend::SingleStream)));
    assert!(matches!(session.advance(Err(DownloadError::DownloadTimeout)), Action::GiveUp));
    match session.into_error() {
        DownloadError::AllBackendsFailed(v) => {
            assert_eq!(v.len(), 2);
            assert_eq!(v[0].backend, Backend::MultiItem);
            assert_eq!(v[0].error, DownloadError::NoMediaFound);
            assert_eq!(v[1].backend, Backend::SingleStream);
            assert_eq!(v[1].error, DownloadError::DownloadTimeout);
        }
        other => panic!("unexpected {:?}", other),
    }
}

#[test]
fn no_backends_gives_up_at_once() {
    let (_, first) = MediaDownloader::with_order(Vec::new()).start("http://x");
    assert!(matches!(first, Action::GiveUp));
}

#[test]
fn setup_health_needs_one_backend() {
    let d = MediaDownloader::new();
    assert!(d.test_setup(&vec![false, true]));
    assert!(!d.test_setup(&vec![false, false]));
    assert!(!d.test_setup(&Vec::new()));
    assert!(d.is_supported_url("anything"));
}

#[test]
fn stream_success_names_the_file() {
    let y = YtDlpDownloader::new();
    let run = ToolRun::Finished { success: true, stdout: vec![9, 9], stderr: String::new() };
    match y.download_to_memory(&metadata("vid", "mp4"), true, run) {
        StreamStep::Done(Ok(f)) => {
            assert_eq!(f.filename, "vid.mp4");
            assert_eq!(f.data, vec![9, 9]);
        }
        other => panic!("unexpected {:?}", other),
    }
}

#[test]
fn stream_retries_once_on_format_refusal() {
    let y = YtDlpDownloader::new();
    let m = metadata("vid", "mp4");
    let refused = || ToolRun::Finished {
        success: false,
        stdout: Vec::new(),
        stderr: "ERROR: [x] abc: Requested format is not available. Use --list-formats".to_string(),
    };
    assert!(matches!(y.download_to_memory(&m, true, refused()), StreamStep::RetryUnconstrained));
    match y.download_to_memory(&m, false, refused()) {
        StreamStep::Done(Err(DownloadError::DownloadStreamFailed(e))) => assert!(e.contains("Requested format")),
        other => panic!("unexpected {:?}", other),
    }
}

#[test]
fn stream_failures() {
    let y = YtDlpDownloader::new();
    let m = metadata("vid", "mp4");
    let other = ToolRun::Finished { success: false, stdout: Vec::new(), stderr: "network down".to_string() };
    assert!(matches!(
        y.download_to_memory(&m, true, other),
        StreamStep::Done(Err(DownloadError::DownloadStreamFailed(_)))
    ));
    let empty = ToolRun::Finished { success: true, stdout: Vec::new(), stderr: String::new() };
    assert!(matches!(
        y.download_to_memory(&m, true, empty),
        StreamStep::Done(Err(DownloadError::DownloadStreamFailed(_)))
    ));
    assert!(matches!(
        y.download_to_memory(&m, true, ToolRun::TimedOut),
        StreamStep::Done(Err(DownloadError::DownloadTimeout))
    ));
}

#[test]
fn stream_args_with_and_without_constraint() {
    let y = YtDlpDownloader::new();
    let a = y.stream_args("http://v", true);
    assert_eq!(&a[..4], &["--output", "-", "--format", "best[height<=720]/best"]);
    assert_eq!(a.last().unwrap(), "http://v");
    let b = y.stream_args("http://v", false);
    assert_eq!(b.len(), a.len() - 2);
    assert!(!b.contains(&"--format".to_string()));
    assert!(!a.iter().any(|x| x.contains("-fs")));
}

#[test]
fn backend_names() {
    assert_eq!(Backend::MultiItem.name(), "gallery-dl");
    assert_eq!(Backend::SingleStream.name(), "yt-dlp");
}

#[test]
fn stream_result_holds_the_one_file() {
    let y = YtDlpDownloader::new();
    let file = MediaFile { filename: "v.mp4".to_string(), data: vec![5] };
    let info = y.download("http://v", metadata("v", "mp4"), file.clone());
    assert_eq!(info.url, "http://v");
    assert_eq!(info.files, vec![file]);
    assert_eq!(info.metadata.id, "v");
}
