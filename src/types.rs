//! The records that one media request produces, and the ways it can fail.
use vstd::prelude::*;

verus! {

/// What is known of the media behind one URL. Immutable once built.
#[derive(Debug, Clone, PartialEq, Eq)]
pub struct MediaMetadata {
    pub title: String,
    pub id: String,
    pub thumbnail: Option<String>,
    /// Length in whole seconds, for videos.
    pub duration: Option<u64>,
    pub author: Option<String>,
    pub likes: Option<u64>,
    pub format_ext: String,
}

/// The mathematical content of a `MediaMetadata`.
pub ghost struct MetadataView {
    pub title: Seq<char>,
    pub id: Seq<char>,
    pub thumbnail: Option<Seq<char>>,
    pub duration: Option<u64>,
    pub author: Option<Seq<char>>,
    pub likes: Option<u64>,
    pub format_ext: Seq<char>,
}

impl View for MediaMetadata {
    type V = MetadataView;

    open spec fn view(&self) -> MetadataView {
        MetadataView {
            title: self.title@,
            id: self.id@,
            thumbnail: crate::json::opt_view(self.thumbnail),
            duration: self.duration,
            author: crate::json::opt_view(self.author),
            likes: self.likes,
            format_ext: self.format_ext@,
        }
    }
}

/// One downloaded file, held in memory.
#[derive(Debug, Clone, PartialEq, Eq)]
pub struct MediaFile {
    pub filename: String,
    pub data: Vec<u8>,
}

/// The mathematical content of a `MediaFile`.
pub ghost struct FileView {
    pub filename: Seq<char>,
    pub data: Seq<u8>,
}

impl View for MediaFile {
    type V = FileView;

    open spec fn view(&self) -> FileView {
        FileView { filename: self.filename@, data: self.data@ }
    }
}

/// How a run of an outside tool ended, as the caller that ran it saw it.
#[derive(Debug, Clone, PartialEq, Eq)]
pub enum ToolRun {
    /// The tool ran past its time limit and was stopped.
    TimedOut,
    /// The tool could not be started; why.
    NotStarted(String),
    /// The tool exited; whether its status was success, and what it printed.
    Finished { success: bool, stdout: Vec<u8>, stderr: String },
}

/// The outcome of one successful request: its files in discovery order, and
/// one metadata record shared by all of them.
#[derive(Debug)]
pub struct MediaInfo {
    pub url: String,
    pub files: Vec<MediaFile>,
    pub metadata: MediaMetadata,
}

impl MediaInfo {
    /// Whether this is a deliverable result for `url`: it names `url`, and it
    /// holds at least one file, every one of them non-empty.
    pub open spec fn valid_for(&self, url: Seq<char>) -> bool {
        &&& self.url@ == url
        &&& self.files@.len() >= 1
        &&& forall|i: int| 0 <= i < self.files@.len() ==> #[trigger] self.files@[i].data@.len() > 0
    }
}

/// The two ways of acquiring media.
#[derive(Debug, Clone, Copy, PartialEq, Eq, Structural)]
pub enum Backend {
    /// Lists every media item of a page, then fetches each over HTTP.
    MultiItem,
    /// Streams one merged media file.
    SingleStream,
}

impl Backend {
    /// The stable name of the backend.
    pub fn name(&self) -> (r: &'static str)
        ensures
            *self == Backend::MultiItem ==> r@ == "gallery-dl"@,
            *self == Backend::SingleStream ==> r@ == "yt-dlp"@,
    {
        match self {
            Backend::MultiItem => "gallery-dl",
            Backend::SingleStream => "yt-dlp",
        }
    }
}

/// Why fetching one media item over HTTP failed.
#[derive(Debug, Clone, PartialEq, Eq)]
pub enum FetchError {
    /// The server answered with a status outside 200..=299.
    HttpStatus(u16),
    /// The transfer failed.
    NetworkError(String),
    /// No complete answer came within the time allowed.
    Timeout,
    /// The answer held no bytes.
    EmptyBody,
}

/// A media item that could not be fetched.
#[derive(Debug, Clone, PartialEq, Eq)]
pub struct ItemFailure {
    pub url: String,
    pub cause: FetchError,
}

/// A backend that was tried, and why it failed.
#[derive(Debug, PartialEq, Eq)]
pub struct BackendFailure {
    pub backend: Backend,
    pub error: DownloadError,
}

/// Why a request, or one backend's attempt at it, failed.
#[derive(Debug, PartialEq, Eq)]
pub enum DownloadError {
    /// The extraction tool ran past its time limit.
    ExtractionTimeout,
    /// The tool could not be started, or crashed.
    ToolInvocationFailed(String),
    /// The extraction tool exited with a failure status; its error text.
    ExtractionToolFailed(String),
    /// The extraction tool printed something that is not JSON.
    MalformedOutput,
    /// The tool's output is empty or not the expected container.
    NoMediaFound,
    /// The output was read but names no media URL.
    NoUrlsExtracted,
    /// Every media item failed to download.
    AllItemsFailed(Vec<ItemFailure>),
    /// The media stream ran past its time limit.
    DownloadTimeout,
    /// The streaming tool exited with a failure status; its error text.
    DownloadStreamFailed(String),
    /// Every backend failed, in the order they were tried.
    AllBackendsFailed(Vec<BackendFailure>),
}

} // verus!
