use grabby::gallery_dl::GalleryDlDownloader;
use grabby::json::Json;
use grabby::number::whole_of;
use grabby::types::{DownloadError, ToolRun};
use grabby::ytdlp::YtDlpDownloader;

fn finished(stdout: &str) -> ToolRun {
    ToolRun::Finished { success: true, stdout: stdout.as_bytes().to_vec(), stderr: String::new() }
}

#[test]
fn flat_metadata_falls_back_to_placeholders() {
    let m = YtDlpDownloader::new().extract_metadata(finished("{}")).unwrap();
    assert_eq!(m.title, "Unknown Title");
    assert_eq!(m.id, "video");
    assert_eq!(m.format_ext, "mp4");
    assert_eq!(m.author, None);
    assert_eq!(m.likes, None);
    assert_eq!(m.duration, None);
}

#[test]
fn flat_metadata_needs_an_object() {
    let y = YtDlpDownloader::new();
    assert_eq!(y.extract_metadata(finished("[1, 2]")).unwrap_err(), DownloadError::NoMediaFound);
    assert_eq!(y.extract_metadata(finished("[]")).unwrap_err(), DownloadError::NoMediaFound);
    assert_eq!(y.extract_metadata(finished("5")).unwrap_err(), DownloadError::NoMediaFound);
    assert_eq!(y.extract_metadata(finished("not json")).unwrap_err(), DownloadError::MalformedOutput);
}

#[test]
fn numeric_ids_fall_through_to_strings() {
    let m = YtDlpDownloader::new().extract_metadata(finished(r#"{"id": 42, "filename": "f"}"#)).unwrap();
    assert_eq!(m.id, "f");
    let text = r#"[[3, "u", {"tweet_id": 17, "id": "s"}]]"#;
    let (m, _) = GalleryDlDownloader::new().extract_metadata_and_urls(finished(text)).unwrap();
    assert_eq!(m.id, "s");
}

#[test]
fn flat_metadata_reads_fields() {
    let text = r#"{"title":"Clip","id":"abc","uploader":"me","like_count":12,
        "ext":"webm","duration":61.9,"thumbnail":"http://t/x.jpg"}"#;
    let m = YtDlpDownloader::new().extract_metadata(finished(text)).unwrap();
    assert_eq!(m.title, "Clip");
    assert_eq!(m.id, "abc");
    assert_eq!(m.author.as_deref(), Some("me"));
    assert_eq!(m.likes, Some(12));
    assert_eq!(m.format_ext, "webm");
    assert_eq!(m.duration, Some(61));
    assert_eq!(m.thumbnail.as_deref(), Some("http://t/x.jpg"));
}

#[test]
fn flat_metadata_title_chain_prefers_content_over_filename() {
    let text = r#"{"content":"Body","filename":"f1"}"#;
    let m = YtDlpDownloader::new().extract_metadata(finished(text)).unwrap();
    assert_eq!(m.title, "Body");
    assert_eq!(m.id, "f1");
}

#[test]
fn record_metadata_falls_back_to_placeholders() {
    let (m, urls) = GalleryDlDownloader::new()
        .extract_metadata_and_urls(finished(r#"[[3, "http://a/1.jpg", {}]]"#))
        .unwrap();
    assert_eq!(m.title, "Unknown Media");
    assert_eq!(m.id, "unknown");
    assert_eq!(m.format_ext, "jpg");
    assert_eq!(m.author, None);
    assert_eq!(m.likes, None);
    assert_eq!(urls, vec!["http://a/1.jpg".to_string()]);
}

#[test]
fn listing_takes_urls_in_order_and_first_record_metadata() {
    let text = r#"[[2, {"title":"pure metadata","id":"m"}],
        [3, "url1", {"title":"First","tweet_id":"1700","author":{"nick":"nick1","name":"n1"},"ups":5,"extension":"png"}],
        [3, "url2", {"title":"Second","id":"2","uploader":"u","score":9,"extension":"gif"}]]"#;
    let (m, urls) = GalleryDlDownloader::new().extract_metadata_and_urls(finished(text)).unwrap();
    assert_eq!(urls, vec!["url1".to_string(), "url2".to_string()]);
    assert_eq!(m.title, "First");
    assert_eq!(m.id, "1700");
    assert_eq!(m.author.as_deref(), Some("nick1"));
    assert_eq!(m.likes, Some(5));
    assert_eq!(m.format_ext, "png");
}

#[test]
fn record_author_and_likes_chains() {
    let text = r#"[[3, "u", {"author":{"name":"N"},"favorite_count":3}]]"#;
    let (m, _) = GalleryDlDownloader::new().extract_metadata_and_urls(finished(text)).unwrap();
    assert_eq!(m.author.as_deref(), Some("N"));
    assert_eq!(m.likes, Some(3));
    let text = r#"[[3, "u", {"author":"flat","uploader":"up","score":4,"id":"x","filename":"f"}]]"#;
    let (m, _) = GalleryDlDownloader::new().extract_metadata_and_urls(finished(text)).unwrap();
    assert_eq!(m.author.as_deref(), Some("flat"));
    assert_eq!(m.likes, Some(4));
    assert_eq!(m.id, "x");
    assert_eq!(m.title, "f");
}

#[test]
fn listing_errors() {
    let g = GalleryDlDownloader::new();
    assert_eq!(g.extract_metadata_and_urls(finished("[]")).unwrap_err(), DownloadError::NoMediaFound);
    assert_eq!(g.extract_metadata_and_urls(finished("{}")).unwrap_err(), DownloadError::NoMediaFound);
    assert_eq!(
        g.extract_metadata_and_urls(finished(r#"[[2, {"title":"t"}], [3, 5, {}]]"#)).unwrap_err(),
        DownloadError::NoUrlsExtracted
    );
    assert_eq!(g.extract_metadata_and_urls(finished("not json")).unwrap_err(), DownloadError::MalformedOutput);
    assert_eq!(g.extract_metadata_and_urls(ToolRun::TimedOut).unwrap_err(), DownloadError::ExtractionTimeout);
    assert_eq!(
        g.extract_metadata_and_urls(ToolRun::NotStarted("no such file".to_string())).unwrap_err(),
        DownloadError::ToolInvocationFailed("no such file".to_string())
    );
    let failed = ToolRun::Finished { success: false, stdout: Vec::new(), stderr: "ERROR: bad".to_string() };
    assert_eq!(
        g.extract_metadata_and_urls(failed).unwrap_err(),
        DownloadError::ExtractionToolFailed("ERROR: bad".to_string())
    );
}

#[test]
fn records_from_a_built_tree() {
    let item = Json::Array(vec![
        Json::Number(grabby::json::JsonNumber { unsigned: Some(3), text: "3".to_string() }),
        Json::Str("http://x/y.jpg".to_string()),
        Json::Object(vec![("title".to_string(), Json::Str("T".to_string()))]),
    ]);
    let (m, urls) = GalleryDlDownloader::records_from_json(&Json::Array(vec![item])).unwrap();
    assert_eq!(m.title, "T");
    assert_eq!(urls, vec!["http://x/y.jpg".to_string()]);
}

#[test]
fn description_args_name_the_url() {
    let args = YtDlpDownloader::new().description_args("http://v");
    assert_eq!(args, vec!["--dump-json", "--no-download", "--no-warnings", "http://v"]);
    let args = GalleryDlDownloader::new().listing_args("http://g");
    assert_eq!(args, vec!["--dump-json", "http://g"]);
}

#[test]
fn number_text_truncates_to_whole_units() {
    assert_eq!(whole_of("61.9"), Some(61));
    assert_eq!(whole_of("100"), Some(100));
    assert_eq!(whole_of("-3.5"), Some(0));
    assert_eq!(whole_of("1e21"), Some(u64::MAX));
    assert_eq!(whole_of("1.5e-7"), Some(0));
    assert_eq!(whole_of("2.5e3"), Some(2500));
    assert_eq!(whole_of("6.125E+1"), Some(61));
    assert_eq!(whole_of("12e-1"), Some(1));
    assert_eq!(whole_of("61.900000"), Some(61));
    assert_eq!(whole_of("99999999999999999999999"), Some(u64::MAX));
    assert_eq!(whole_of(""), None);
}

#[test]
fn negative_duration_reads_as_zero() {
    let m = YtDlpDownloader::new().extract_metadata(finished(r#"{"duration": -4}"#)).unwrap();
    assert_eq!(m.duration, Some(0));
}
