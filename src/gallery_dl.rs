//! The multi-item backend: its tool prints a sequence of tagged records, each
//! media item is then fetched on its own, and the items that arrive make up the
//! result.
use crate::downloader::Downloader;
use crate::json::{parse_json, parsed_json, strings_view, Json};
use crate::metadata::{record_metadata, record_metadata_of};
use crate::types::{
    DownloadError, FetchError, FileView, ItemFailure, MediaFile, MediaInfo, MediaMetadata,
    MetadataView, ToolRun,
};
use crate::utils::{decimal_chars, decimal_digits, push_all};
use vstd::prelude::*;
use vstd::string::*;

verus! {

/// The views of a sequence of files.
pub open spec fn files_view(v: Seq<MediaFile>) -> Seq<FileView> {
    v.map_values(|f: MediaFile| f@)
}

/// The URL of a media record `[tag, url, object]`; `None` for anything else,
/// such as a pure metadata record `[tag, object]`.
pub open spec fn record_url(item: Json) -> Option<Seq<char>> {
    match item {
        Json::Array(a) => if a@.len() == 3 {
            match a@[1] {
                Json::Str(s) => Some(s@),
                _ => None,
            }
        } else {
            None
        },
        _ => None,
    }
}

/// The object of a media record (its third element).
pub open spec fn record_object(item: Json) -> Json {
    match item {
        Json::Array(a) => a@[2],
        _ => Json::Null,
    }
}

/// The URLs of the media records among `items`, in order.
pub open spec fn record_urls(items: Seq<Json>) -> Seq<Seq<char>>
    decreases items.len(),
{
    if items.len() == 0 {
        Seq::empty()
    } else {
        match record_url(items.last()) {
            Some(u) => record_urls(items.drop_last()).push(u),
            None => record_urls(items.drop_last()),
        }
    }
}

/// The object of the first media record among `items`.
pub open spec fn first_record(items: Seq<Json>) -> Option<Json>
    decreases items.len(),
{
    if items.len() == 0 {
        None
    } else if first_record(items.drop_last()) is Some {
        first_record(items.drop_last())
    } else if record_url(items.last()) is Some {
        Some(record_object(items.last()))
    } else {
        None
    }
}

/// What a record listing yields: the metadata of the first media record and
/// the URLs of all of them; `NoMediaFound` for anything but a non-empty
/// sequence, `NoUrlsExtracted` when no record names a URL.
pub open spec fn records_outcome(doc: Json) -> Result<(MetadataView, Seq<Seq<char>>), DownloadError> {
    match doc {
        Json::Array(items) => if items@.len() == 0 {
            Err(DownloadError::NoMediaFound)
        } else if record_urls(items@).len() == 0 {
            Err(DownloadError::NoUrlsExtracted)
        } else {
            Ok((record_metadata(first_record(items@)->0), record_urls(items@)))
        },
        _ => Err(DownloadError::NoMediaFound),
    }
}

/// The view of an extraction result.
pub open spec fn extraction_view(r: Result<(MediaMetadata, Vec<String>), DownloadError>) -> Result<
    (MetadataView, Seq<Seq<char>>),
    DownloadError,
> {
    match r {
        Ok((m, urls)) => Ok((m@, strings_view(urls@))),
        Err(e) => Err(e),
    }
}

/// What the listing tool's run yields.
pub open spec fn listing_outcome(run: ToolRun) -> Result<(MetadataView, Seq<Seq<char>>), DownloadError> {
    match run {
        ToolRun::TimedOut => Err(DownloadError::ExtractionTimeout),
        ToolRun::NotStarted(why) => Err(DownloadError::ToolInvocationFailed(why)),
        ToolRun::Finished { success, stdout, stderr } => if !success {
            Err(DownloadError::ExtractionToolFailed(stderr))
        } else {
            match parsed_json(stdout@) {
                Some(doc) => records_outcome(doc),
                None => Err(DownloadError::MalformedOutput),
            }
        },
    }
}

/// The file name of the item at 0-based position `index` of a listing: `{id}.{ext}`
/// for the first, `{id}_{index}.{ext}` for the others. The position is the one in
/// the listing, so names stay the same whichever items fail.
pub open spec fn item_filename(id: Seq<char>, ext: Seq<char>, index: nat) -> Seq<char> {
    if index == 0 {
        id + seq!['.'] + ext
    } else {
        id + seq!['_'] + decimal_digits(index) + seq!['.'] + ext
    }
}

/// The files made from the first `n` fetch results: one for each non-empty body,
/// named by its position.
pub open spec fn fetched_files(
    id: Seq<char>,
    ext: Seq<char>,
    fetched: Seq<Result<Vec<u8>, FetchError>>,
    n: nat,
) -> Seq<FileView>
    decreases n,
{
    if n == 0 {
        Seq::empty()
    } else {
        let i = (n - 1) as nat;
        let earlier = fetched_files(id, ext, fetched, i);
        match fetched[i as int] {
            Ok(d) => if d@.len() > 0 {
                earlier.push(FileView { filename: item_filename(id, ext, i), data: d@ })
            } else {
                earlier
            },
            Err(_) => earlier,
        }
    }
}

/// The failures among the first `n` fetch results, with their URLs.
pub open spec fn item_failures(
    urls: Seq<String>,
    fetched: Seq<Result<Vec<u8>, FetchError>>,
    n: nat,
) -> Seq<ItemFailure>
    decreases n,
{
    if n == 0 {
        Seq::empty()
    } else {
        let i = (n - 1) as nat;
        let earlier = item_failures(urls, fetched, i);
        match fetched[i as int] {
            Ok(d) => if d@.len() > 0 {
                earlier
            } else {
                earlier.push(ItemFailure { url: urls[i as int], cause: FetchError::EmptyBody })
            },
            Err(e) => earlier.push(ItemFailure { url: urls[i as int], cause: e }),
        }
    }
}

/// A failed fetch among three is skipped, not fatal: the other two items are
/// delivered in listing order, named `{id}.{ext}` and `{id}_2.{ext}` after their
/// positions, with their bodies unchanged.
pub proof fn lemma_failed_item_skipped(
    id: Seq<char>,
    ext: Seq<char>,
    first: Vec<u8>,
    e: FetchError,
    third: Vec<u8>,
)
    requires
        first@.len() > 0,
        third@.len() > 0,
    ensures
        fetched_files(id, ext, seq![Ok(first), Err(e), Ok(third)], 3) == seq![
            FileView { filename: id + seq!['.'] + ext, data: first@ },
            FileView { filename: id + seq!['_', '2', '.'] + ext, data: third@ },
        ],
{
    let fetched = seq![Ok::<Vec<u8>, FetchError>(first), Err(e), Ok(third)];
    assert(fetched[0] == Ok::<Vec<u8>, FetchError>(first));
    assert(fetched[1] == Err::<Vec<u8>, FetchError>(e));
    assert(fetched[2] == Ok::<Vec<u8>, FetchError>(third));
    assert(fetched_files(id, ext, fetched, 0) == Seq::<FileView>::empty());
    assert(decimal_digits(2) == seq!['2']);
    assert(item_filename(id, ext, 2) =~= id + seq!['_', '2', '.'] + ext);
    assert(item_filename(id, ext, 0) =~= id + seq!['.'] + ext);
    assert(fetched_files(id, ext, fetched, 1) =~= seq![
        FileView { filename: id + seq!['.'] + ext, data: first@ },
    ]);
    assert(fetched_files(id, ext, fetched, 2) == fetched_files(id, ext, fetched, 1));
    assert(fetched_files(id, ext, fetched, 3) =~= seq![
        FileView { filename: id + seq!['.'] + ext, data: first@ },
        FileView { filename: id + seq!['_', '2', '.'] + ext, data: third@ },
    ]);
}

/// The backend that lists every media item of a page and fetches each one.
pub struct GalleryDlDownloader;

fn copy_fetch_error(e: &FetchError) -> (r: FetchError)
    ensures
        r == *e,
{
    match e {
        FetchError::HttpStatus(code) => FetchError::HttpStatus(*code),
        FetchError::NetworkError(why) => FetchError::NetworkError(why.clone()),
        FetchError::Timeout => FetchError::Timeout,
        FetchError::EmptyBody => FetchError::EmptyBody,
    }
}

fn copy_bytes(d: &Vec<u8>) -> (r: Vec<u8>)
    ensures
        r@ == d@,
{
    let r = d.clone();
    assert(r@ =~= d@);
    r
}

/// The URL and object of a media record.
fn record_parts(item: &Json) -> (r: Option<(&String, &Json)>)
    ensures
        match r {
            Some((u, o)) => record_url(*item) == Some(u@) && record_object(*item) == *o,
            None => record_url(*item) is None,
        },
{
    match item {
        Json::Array(a) => {
            if a.len() == 3 {
                match &a[1] {
                    Json::Str(s) => Some((s, &a[2])),
                    _ => None,
                }
            } else {
                None
            }
        },
        _ => None,
    }
}

impl GalleryDlDownloader {
    pub fn new() -> Self {
        GalleryDlDownloader
    }

    /// The arguments that make the tool print its record listing for `url`.
    pub fn listing_args(&self, url: &str) -> (r: Vec<String>)
        ensures
            strings_view(r@) == seq!["--dump-json"@, url@],
    {
        let mut args: Vec<String> = Vec::new();
        args.push("--dump-json".to_owned());
        args.push(url.to_owned());
        assert(strings_view(args@) =~= seq!["--dump-json"@, url@]);
        args
    }

    /// Reads a parsed record listing: every media record `[tag, url, object]`
    /// gives its URL, in order, and the first one also gives the metadata;
    /// metadata records `[tag, object]` and anything else are passed over.
    pub fn records_from_json(doc: &Json) -> (r: Result<(MediaMetadata, Vec<String>), DownloadError>)
        ensures
            extraction_view(r) == records_outcome(*doc),
    {
        match doc {
            Json::Array(items) => {
                if items.len() == 0 {
                    return Err(DownloadError::NoMediaFound);
                }
                let mut urls: Vec<String> = Vec::new();
                let mut meta: Option<MediaMetadata> = None;
                let mut i: usize = 0;
                while i < items.len()
                    invariant
                        0 <= i <= items@.len(),
                        strings_view(urls@) == record_urls(items@.subrange(0, i as int)),
                        (first_record(items@.subrange(0, i as int)) is Some) == (record_urls(
                            items@.subrange(0, i as int),
                        ).len() > 0),
                        match meta {
                            Some(m) => first_record(items@.subrange(0, i as int)) is Some
                                && m@ == record_metadata(
                                first_record(items@.subrange(0, i as int))->0,
                            ),
                            None => first_record(items@.subrange(0, i as int)) is None,
                        },
                    decreases items@.len() - i,
                {
                    let ghost prefix = items@.subrange(0, i as int + 1);
                    assert(prefix.drop_last() =~= items@.subrange(0, i as int));
                    assert(prefix.last() == items@[i as int]);
                    match record_parts(&items[i]) {
                        Some((u, obj)) => {
                            urls.push(u.clone());
                            if meta.is_none() {
                                meta = Some(record_metadata_of(obj));
                            }
                        },
                        None => {},
                    }
                    i += 1;
                    assert(strings_view(urls@) =~= record_urls(items@.subrange(0, i as int)));
                }
                assert(items@.subrange(0, i as int) =~= items@);
                match meta {
                    Some(m) => Ok((m, urls)),
                    None => Err(DownloadError::NoUrlsExtracted),
                }
            },
            _ => Err(DownloadError::NoMediaFound),
        }
    }

    /// Turns the run of the listing tool into the metadata and the media URLs.
    pub fn extract_metadata_and_urls(&self, run: ToolRun) -> (r: Result<
        (MediaMetadata, Vec<String>),
        DownloadError,
    >)
        ensures
            extraction_view(r) == listing_outcome(run),
    {
        match run {
            ToolRun::TimedOut => Err(DownloadError::ExtractionTimeout),
            ToolRun::NotStarted(why) => Err(DownloadError::ToolInvocationFailed(why)),
            ToolRun::Finished { success, stdout, stderr } => {
                if !success {
                    return Err(DownloadError::ExtractionToolFailed(stderr));
                }
                match parse_json(stdout.as_slice()) {
                    Some(doc) => Self::records_from_json(&doc),
                    None => Err(DownloadError::MalformedOutput),
                }
            },
        }
    }

    /// The file name of the item at 0-based position `index` of the listing.
    pub fn item_filename(metadata: &MediaMetadata, index: usize) -> (r: String)
        ensures
            r@ == item_filename(metadata.id@, metadata.format_ext@, index as nat),
    {
        let mut name = metadata.id.clone();
        if index > 0 {
            name.push('_');
            push_all(&mut name, &decimal_chars(index as u64));
        }
        name.push('.');
        name.append(metadata.format_ext.as_str());
        if index > 0 {
            assert(name@ =~= item_filename(metadata.id@, metadata.format_ext@, index as nat));
        } else {
            assert(name@ =~= item_filename(metadata.id@, metadata.format_ext@, index as nat));
        }
        name
    }

    /// Builds the result from what fetching each listed URL gave, in listing
    /// order: every non-empty body becomes a file named by its position; the
    /// request fails with every item's failure when no file is left.
    pub fn collect_items(
        &self,
        url: &str,
        metadata: MediaMetadata,
        media_urls: &Vec<String>,
        fetched: &Vec<Result<Vec<u8>, FetchError>>,
    ) -> (r: Result<MediaInfo, DownloadError>)
        requires
            media_urls@.len() == fetched@.len(),
        ensures
            fetched_files(metadata.id@, metadata.format_ext@, fetched@, fetched@.len()).len() > 0
                ==> (r matches Ok(info) && info.url@ == url@ && info.metadata == metadata
                && files_view(info.files@) == fetched_files(
                metadata.id@,
                metadata.format_ext@,
                fetched@,
                fetched@.len(),
            )),
            fetched_files(metadata.id@, metadata.format_ext@, fetched@, fetched@.len()).len() == 0
                ==> (r matches Err(DownloadError::AllItemsFailed(failures)) && failures@
                == item_failures(media_urls@, fetched@, fetched@.len())),
            r matches Ok(info) ==> info.valid_for(url@),
    {
        let mut files: Vec<MediaFile> = Vec::new();
        let mut failures: Vec<ItemFailure> = Vec::new();
        let mut i: usize = 0;
        while i < fetched.len()
            invariant
                0 <= i <= fetched@.len(),
                media_urls@.len() == fetched@.len(),
                files_view(files@) == fetched_files(
                    metadata.id@,
                    metadata.format_ext@,
                    fetched@,
                    i as nat,
                ),
                failures@ == item_failures(media_urls@, fetched@, i as nat),
                forall|k: int| 0 <= k < files@.len() ==> #[trigger] files@[k].data@.len() > 0,
            decreases fetched@.len() - i,
        {
            match &fetched[i] {
                Ok(data) => {
                    if data.len() > 0 {
                        let filename = Self::item_filename(&metadata, i);
                        files.push(MediaFile { filename, data: copy_bytes(data) });
                    } else {
                        failures.push(
                            ItemFailure { url: media_urls[i].clone(), cause: FetchError::EmptyBody },
                        );
                    }
                },
                Err(e) => {
                    failures.push(
                        ItemFailure { url: media_urls[i].clone(), cause: copy_fetch_error(e) },
                    );
                },
            }
            i += 1;
            assert(files_view(files@) =~= fetched_files(
                metadata.id@,
                metadata.format_ext@,
                fetched@,
                i as nat,
            ));
        }
        if files.len() == 0 {
            Err(DownloadError::AllItemsFailed(failures))
        } else {
            Ok(MediaInfo { url: url.to_owned(), files, metadata })
        }
    }
}

impl Downloader for GalleryDlDownloader {
    fn name(&self) -> (r: &'static str) {
        "gallery-dl"
    }
}

} // verus!
