//! The single-stream backend: its tool describes the media as one flat object,
//! then streams the merged file; a refused format constraint is retried once
//! without the constraint.
use crate::downloader::Downloader;
use crate::json::strings_view;
use crate::json::{parse_json, parsed_json, Json};
use crate::metadata::{flat_metadata, flat_metadata_of};
use crate::types::{
    DownloadError, FileView, MediaFile, MediaInfo, MediaMetadata, MetadataView, ToolRun,
};
use crate::utils::{contains_text, occurs_in};
use vstd::prelude::*;
use vstd::string::*;

verus! {

/// What the description run yields: an object gives metadata, with defaults
/// for what it lacks; any other JSON value is `NoMediaFound`.
pub open spec fn description_outcome(run: ToolRun) -> Result<MetadataView, DownloadError> {
    match run {
        ToolRun::TimedOut => Err(DownloadError::ExtractionTimeout),
        ToolRun::NotStarted(why) => Err(DownloadError::ToolInvocationFailed(why)),
        ToolRun::Finished { success, stdout, stderr } => if !success {
            Err(DownloadError::ExtractionToolFailed(stderr))
        } else {
            match parsed_json(stdout@) {
                Some(doc) => if doc is Object {
                    Ok(flat_metadata(doc))
                } else {
                    Err(DownloadError::NoMediaFound)
                },
                None => Err(DownloadError::MalformedOutput),
            }
        },
    }
}

/// The view of a metadata result.
pub open spec fn metadata_result_view(r: Result<MediaMetadata, DownloadError>) -> Result<
    MetadataView,
    DownloadError,
> {
    match r {
        Ok(m) => Ok(m@),
        Err(e) => Err(e),
    }
}

/// The error text with which the tool refuses a format constraint.
pub open spec fn format_unavailable() -> Seq<char> {
    "Requested format is not available"@
}

/// The name of the streamed file: `{id}.{ext}`.
pub open spec fn stream_filename(m: MetadataView) -> Seq<char> {
    m.id + seq!['.'] + m.format_ext
}

/// What to do after a run of the streaming tool.
#[derive(Debug)]
pub enum StreamStep {
    /// Run the tool once more, without the format constraint.
    RetryUnconstrained,
    /// The attempt is over.
    Done(Result<MediaFile, DownloadError>),
}

/// What a streaming run decides; `constrained` tells whether the run had the
/// format constraint. A run that succeeds with no bytes is a failure.
pub open spec fn stream_outcome(m: MetadataView, constrained: bool, run: ToolRun) -> Option<
    Result<FileView, DownloadError>,
> {
    match run {
        ToolRun::TimedOut => Some(Err(DownloadError::DownloadTimeout)),
        ToolRun::NotStarted(why) => Some(Err(DownloadError::ToolInvocationFailed(why))),
        ToolRun::Finished { success, stdout, stderr } => if success && stdout@.len() > 0 {
            Some(Ok(FileView { filename: stream_filename(m), data: stdout@ }))
        } else if !success && constrained && occurs_in(stderr@, format_unavailable()) {
            None
        } else {
            Some(Err(DownloadError::DownloadStreamFailed(stderr)))
        },
    }
}

/// The view of a stream step: `None` for a retry.
pub open spec fn stream_step_view(s: StreamStep) -> Option<Result<FileView, DownloadError>> {
    match s {
        StreamStep::RetryUnconstrained => None,
        StreamStep::Done(Ok(f)) => Some(Ok(f@)),
        StreamStep::Done(Err(e)) => Some(Err(e)),
    }
}

/// The backend that streams one merged media file.
pub struct YtDlpDownloader;

impl YtDlpDownloader {
    pub fn new() -> Self {
        YtDlpDownloader
    }

    /// The arguments that make the tool print its description of `url`.
    pub fn description_args(&self, url: &str) -> (r: Vec<String>)
        ensures
            strings_view(r@) == seq!["--dump-json"@, "--no-download"@, "--no-warnings"@, url@],
    {
        let mut args: Vec<String> = Vec::new();
        args.push("--dump-json".to_owned());
        args.push("--no-download".to_owned());
        args.push("--no-warnings".to_owned());
        args.push(url.to_owned());
        assert(strings_view(args@) =~= seq![
            "--dump-json"@,
            "--no-download"@,
            "--no-warnings"@,
            url@,
        ]);
        args
    }

    /// The arguments that stream `url` to standard output as one merged file;
    /// with `constrained`, a format of at most 720 lines is preferred.
    pub fn stream_args(&self, url: &str, constrained: bool) -> (r: Vec<String>)
        ensures
            strings_view(r@) == (if constrained {
                seq!["--output"@, "-"@, "--format"@, "best[height<=720]/best"@]
            } else {
                seq!["--output"@, "-"@]
            }) + seq![
                "--merge-output-format"@,
                "mp4"@,
                "--recode-video"@,
                "mp4"@,
                "--no-warnings"@,
                url@,
            ],
    {
        let mut args: Vec<String> = Vec::new();
        args.push("--output".to_owned());
        args.push("-".to_owned());
        if constrained {
            args.push("--format".to_owned());
            args.push("best[height<=720]/best".to_owned());
        }
        args.push("--merge-output-format".to_owned());
        args.push("mp4".to_owned());
        args.push("--recode-video".to_owned());
        args.push("mp4".to_owned());
        args.push("--no-warnings".to_owned());
        args.push(url.to_owned());
        assert(strings_view(args@) =~= (if constrained {
            seq!["--output"@, "-"@, "--format"@, "best[height<=720]/best"@]
        } else {
            seq!["--output"@, "-"@]
        }) + seq![
            "--merge-output-format"@,
            "mp4"@,
            "--recode-video"@,
            "mp4"@,
            "--no-warnings"@,
            url@,
        ]);
        args
    }

    /// Turns the description run into metadata.
    pub fn extract_metadata(&self, run: ToolRun) -> (r: Result<MediaMetadata, DownloadError>)
        ensures
            metadata_result_view(r) == description_outcome(run),
    {
        match run {
            ToolRun::TimedOut => Err(DownloadError::ExtractionTimeout),
            ToolRun::NotStarted(why) => Err(DownloadError::ToolInvocationFailed(why)),
            ToolRun::Finished { success, stdout, stderr } => {
                if !success {
                    return Err(DownloadError::ExtractionToolFailed(stderr));
                }
                match parse_json(stdout.as_slice()) {
                    Some(doc) => match doc {
                        Json::Object(_) => Ok(flat_metadata_of(&doc)),
                        _ => Err(DownloadError::NoMediaFound),
                    },
                    None => Err(DownloadError::MalformedOutput),
                }
            },
        }
    }

    /// Decides what follows a streaming run: the file, a retry without the
    /// format constraint (only after a constrained run that the tool refused
    /// for its format), or the failure.
    pub fn download_to_memory(&self, metadata: &MediaMetadata, constrained: bool, run: ToolRun) -> (r:
        StreamStep)
        ensures
            stream_step_view(r) == stream_outcome(metadata@, constrained, run),
    {
        match run {
            ToolRun::TimedOut => StreamStep::Done(Err(DownloadError::DownloadTimeout)),
            ToolRun::NotStarted(why) => StreamStep::Done(
                Err(DownloadError::ToolInvocationFailed(why)),
            ),
            ToolRun::Finished { success, stdout, stderr } => {
                if success && stdout.len() > 0 {
                    let mut filename = metadata.id.clone();
                    filename.push('.');
                    filename.append(metadata.format_ext.as_str());
                    assert(filename@ =~= stream_filename(metadata@));
                    StreamStep::Done(Ok(MediaFile { filename, data: stdout }))
                } else if !success && constrained && contains_text(
                    stderr.as_str(),
                    "Requested format is not available",
                ) {
                    StreamStep::RetryUnconstrained
                } else {
                    StreamStep::Done(Err(DownloadError::DownloadStreamFailed(stderr)))
                }
            },
        }
    }

    /// The result of a request that the stream served: the one streamed file,
    /// with the metadata of the description run.
    pub fn download(&self, url: &str, metadata: MediaMetadata, file: MediaFile) -> (r: MediaInfo)
        requires
            file.data@.len() > 0,
        ensures
            r.valid_for(url@),
            r.metadata == metadata,
            r.files@ == seq![file],
    {
        let mut files: Vec<MediaFile> = Vec::new();
        files.push(file);
        assert(files@ =~= seq![file]);
        MediaInfo { url: url.to_owned(), files, metadata }
    }
}

impl Downloader for YtDlpDownloader {
    fn name(&self) -> (r: &'static str) {
        "yt-dlp"
    }
}

} // verus!
