//! Field fallback chains: how each metadata field is read from the loosely
//! structured objects that the two extraction tools print. Every chain ends in
//! a default, so reading metadata never fails.
use crate::json::{opt_view, or_else, Json};
use crate::types::{MediaMetadata, MetadataView};
use vstd::prelude::*;

verus! {

/// The text of `o`, or `default` when there is none.
pub open spec fn text_or(o: Option<Seq<char>>, default: Seq<char>) -> Seq<char> {
    match o {
        Some(t) => t,
        None => default,
    }
}

/// The string `inner` of the object stored under `outer`.
pub open spec fn nested_str(obj: Json, outer: Seq<char>, inner: Seq<char>) -> Option<Seq<char>> {
    match obj.member(outer) {
        Some(o) => o.str_member(inner),
        None => None,
    }
}

/// Metadata read from one flat object of the single-stream tool.
pub open spec fn flat_metadata(obj: Json) -> MetadataView {
    MetadataView {
        title: text_or(
            or_else(
                or_else(obj.str_member("title"@), obj.str_member("content"@)),
                obj.str_member("filename"@),
            ),
            "Unknown Title"@,
        ),
        id: text_or(or_else(obj.str_member("id"@), obj.str_member("filename"@)), "video"@),
        thumbnail: obj.str_member("thumbnail"@),
        duration: obj.whole_member("duration"@),
        author: obj.str_member("uploader"@),
        likes: obj.u64_member("like_count"@),
        format_ext: text_or(obj.str_member("ext"@), "mp4"@),
    }
}

/// The author of a multi-item record: a nested object's `nick` or `name`, else a
/// flat `author` string, else `uploader`.
pub open spec fn record_author(obj: Json) -> Option<Seq<char>> {
    or_else(
        or_else(
            or_else(nested_str(obj, "author"@, "nick"@), nested_str(obj, "author"@, "name"@)),
            obj.str_member("author"@),
        ),
        obj.str_member("uploader"@),
    )
}

/// Metadata read from the object of one multi-item record.
pub open spec fn record_metadata(obj: Json) -> MetadataView {
    MetadataView {
        title: text_or(
            or_else(
                or_else(obj.str_member("title"@), obj.str_member("content"@)),
                obj.str_member("filename"@),
            ),
            "Unknown Media"@,
        ),
        id: text_or(
            or_else(
                or_else(obj.str_member("tweet_id"@), obj.str_member("id"@)),
                obj.str_member("filename"@),
            ),
            "unknown"@,
        ),
        thumbnail: None,
        duration: None,
        author: record_author(obj),
        likes: or_else(
            or_else(obj.u64_member("ups"@), obj.u64_member("score"@)),
            obj.u64_member("favorite_count"@),
        ),
        format_ext: text_or(obj.str_member("extension"@), "jpg"@),
    }
}

/// An object that lacks every field a fallback chain reads still yields
/// metadata, made of the placeholders: "Unknown Title" and "video" for the
/// single-stream tool, "Unknown Media" and "unknown" for the multi-item tool.
pub proof fn lemma_missing_fields_use_placeholders(obj: Json)
    requires
        forall|k: Seq<char>| #[trigger] obj.member(k) is None,
    ensures
        flat_metadata(obj) == (MetadataView {
            title: "Unknown Title"@,
            id: "video"@,
            thumbnail: None,
            duration: None,
            author: None,
            likes: None,
            format_ext: "mp4"@,
        }),
        record_metadata(obj) == (MetadataView {
            title: "Unknown Media"@,
            id: "unknown"@,
            thumbnail: None,
            duration: None,
            author: None,
            likes: None,
            format_ext: "jpg"@,
        }),
{
    assert(obj.member("title"@) is None);
    assert(obj.member("content"@) is None);
    assert(obj.member("filename"@) is None);
    assert(obj.member("id"@) is None);
    assert(obj.member("tweet_id"@) is None);
    assert(obj.member("thumbnail"@) is None);
    assert(obj.member("duration"@) is None);
    assert(obj.member("uploader"@) is None);
    assert(obj.member("like_count"@) is None);
    assert(obj.member("ext"@) is None);
    assert(obj.member("author"@) is None);
    assert(obj.member("ups"@) is None);
    assert(obj.member("score"@) is None);
    assert(obj.member("favorite_count"@) is None);
    assert(obj.member("extension"@) is None);
}

/// The first of two optional texts that is present.
fn first_of(a: Option<String>, b: Option<String>) -> (r: Option<String>)
    ensures
        opt_view(r) == or_else(opt_view(a), opt_view(b)),
{
    match a {
        Some(t) => Some(t),
        None => b,
    }
}

/// The text of `o`, or `default`.
fn text_or_default(o: Option<String>, default: &str) -> (r: String)
    ensures
        r@ == text_or(opt_view(o), default@),
{
    match o {
        Some(t) => t,
        None => default.to_owned(),
    }
}

/// The string `inner` of the object stored under `outer`.
fn get_nested_str(obj: &Json, outer: &str, inner: &str) -> (r: Option<String>)
    ensures
        opt_view(r) == nested_str(*obj, outer@, inner@),
{
    match obj.get(outer) {
        Some(o) => o.get_str(inner),
        None => None,
    }
}

/// Reads the metadata of the single-stream tool from its flat object. Any
/// value is accepted; missing fields take their defaults.
pub fn flat_metadata_of(obj: &Json) -> (r: MediaMetadata)
    ensures
        r@ == flat_metadata(*obj),
{
    let title = text_or_default(
        first_of(first_of(obj.get_str("title"), obj.get_str("content")), obj.get_str("filename")),
        "Unknown Title",
    );
    let id = text_or_default(first_of(obj.get_str("id"), obj.get_str("filename")), "video");
    let format_ext = text_or_default(obj.get_str("ext"), "mp4");
    MediaMetadata {
        title,
        id,
        thumbnail: obj.get_str("thumbnail"),
        duration: obj.get_whole("duration"),
        author: obj.get_str("uploader"),
        likes: obj.get_u64("like_count"),
        format_ext,
    }
}

/// Reads the metadata of one multi-item record from its object. Any value is
/// accepted; missing fields take their defaults.
pub fn record_metadata_of(obj: &Json) -> (r: MediaMetadata)
    ensures
        r@ == record_metadata(*obj),
{
    let title = text_or_default(
        first_of(first_of(obj.get_str("title"), obj.get_str("content")), obj.get_str("filename")),
        "Unknown Media",
    );
    let id = text_or_default(
        first_of(first_of(obj.get_str("tweet_id"), obj.get_str("id")), obj.get_str("filename")),
        "unknown",
    );
    let author = first_of(
        first_of(
            first_of(
                get_nested_str(obj, "author", "nick"),
                get_nested_str(obj, "author", "name"),
            ),
            obj.get_str("author"),
        ),
        obj.get_str("uploader"),
    );
    let likes = match obj.get_u64("ups") {
        Some(n) => Some(n),
        None => match obj.get_u64("score") {
            Some(n) => Some(n),
            None => obj.get_u64("favorite_count"),
        },
    };
    let format_ext = text_or_default(obj.get_str("extension"), "jpg");
    MediaMetadata {
        title,
        id,
        thumbnail: None,
        duration: None,
        author,
        likes,
        format_ext,
    }
}

} // verus!
