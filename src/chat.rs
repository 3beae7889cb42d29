//! What the bot decides around a request: which links a message carries,
//! whether a message or command is acted on, and the text that goes with a
//! delivery.
use crate::config::ConfigManager;
use crate::json::strings_view;
use crate::media::MediaDownloader;
use crate::resize::Unshrinkable;
use crate::types::{BackendFailure, DownloadError};
use crate::utils::{chars_of, decimal_digits, format_number, grouped, push_all};
use vstd::prelude::*;
use vstd::string::*;

verus! {

/// Whether `c` has Unicode's White_Space property.
pub open spec fn white_space(c: char) -> bool {
    let u = c as u32;
    (0x09 <= u && u <= 0x0D) || u == 0x20 || u == 0x85 || u == 0xA0 || u == 0x1680 || (0x2000 <= u
        && u <= 0x200A) || u == 0x2028 || u == 0x2029 || u == 0x202F || u == 0x205F || u == 0x3000
}

/// `char::is_whitespace` is true exactly for the characters with Unicode's
/// White_Space property.
pub assume_specification[ char::is_whitespace ](c: char) -> (r: bool)
    ensures
        r == white_space(c),
;

/// Whether `w` begins with `prefix`.
pub open spec fn starts_with(w: Seq<char>, prefix: Seq<char>) -> bool {
    prefix.len() <= w.len() && w.subrange(0, prefix.len() as int) == prefix
}

/// Whether the word `w` is a web link.
pub open spec fn is_link(w: Seq<char>) -> bool {
    starts_with(w, "http://"@) || starts_with(w, "https://"@)
}

/// `links` with the word `w` added when it is a link.
pub open spec fn keep_link(links: Seq<Seq<char>>, w: Seq<char>) -> Seq<Seq<char>> {
    if w.len() > 0 && is_link(w) {
        links.push(w)
    } else {
        links
    }
}

/// After the first `n` characters of `text`: the links among the words that
/// white space has closed, and the word still open.
pub open spec fn scan_words(text: Seq<char>, n: nat) -> (Seq<Seq<char>>, Seq<char>)
    decreases n,
{
    if n == 0 {
        (Seq::empty(), Seq::empty())
    } else {
        let (links, open_word) = scan_words(text, (n - 1) as nat);
        let c = text[n - 1];
        if white_space(c) {
            (keep_link(links, open_word), Seq::empty())
        } else {
            (links, open_word.push(c))
        }
    }
}

/// The words of `text` (its maximal runs of non-white-space characters) that
/// begin with `http://` or `https://`, in order.
pub open spec fn links_in(text: Seq<char>) -> Seq<Seq<char>> {
    let (links, open_word) = scan_words(text, text.len());
    keep_link(links, open_word)
}

fn starts_with_chars(w: &Vec<char>, prefix: &str) -> (r: bool)
    ensures
        r == starts_with(w@, prefix@),
{
    let p = chars_of(prefix);
    if p.len() > w.len() {
        return false;
    }
    let mut j: usize = 0;
    while j < p.len()
        invariant
            p@ == prefix@,
            p@.len() <= w@.len(),
            0 <= j <= p@.len(),
            forall|t: int| 0 <= t < j ==> w@[t] == p@[t],
        decreases p@.len() - j,
    {
        if w[j] != p[j] {
            assert(w@.subrange(0, p@.len() as int)[j as int] != p@[j as int]);
            return false;
        }
        j += 1;
    }
    assert(w@.subrange(0, p@.len() as int) =~= p@);
    true
}

fn close_word(links: &mut Vec<String>, word: &Vec<char>)
    ensures
        strings_view(final(links)@) == keep_link(
            strings_view(old(links)@),
            word@,
        ),
{
    if word.len() > 0 && (starts_with_chars(word, "http://") || starts_with_chars(word, "https://")) {
        let mut s = String::new();
        push_all(&mut s, word);
        assert(s@ =~= word@);
        links.push(s);
        assert(strings_view(links@) =~= strings_view(
            old(links)@,
        ).push(word@));
    }
}

/// The links that a message carries: its words, split at white space, that
/// begin with `http://` or `https://`, in order.
pub fn extract_urls(content: &str) -> (r: Vec<String>)
    ensures
        strings_view(r@) == links_in(content@),
{
    let text = chars_of(content);
    let mut links: Vec<String> = Vec::new();
    let mut word: Vec<char> = Vec::new();
    let mut i: usize = 0;
    while i < text.len()
        invariant
            text@ == content@,
            0 <= i <= text@.len(),
            (strings_view(links@), word@) == scan_words(text@, i as nat),
        decreases text@.len() - i,
    {
        let c = text[i];
        if c.is_whitespace() {
            close_word(&mut links, &word);
            word = Vec::new();
        } else {
            word.push(c);
        }
        i += 1;
    }
    close_word(&mut links, &word);
    links
}

/// Whether a posted message is scanned for links: not from a bot, posted in
/// a server, in a channel that embeds links on its own.
pub fn should_embed_message(
    config: &ConfigManager,
    from_bot: bool,
    guild_id: Option<&str>,
    channel_id: &str,
) -> (r: bool)
    ensures
        r ==> !from_bot && guild_id is Some,
        !from_bot && guild_id is Some ==> exists|c: crate::config::ServerConfig|
            config.applies(guild_id->0@, c) && r == c.auto_embeds(channel_id@),
{
    if from_bot {
        return false;
    }
    match guild_id {
        Some(g) => config.is_auto_embed_channel(g, channel_id),
        None => false,
    }
}

/// The first answer to an embed command.
#[derive(Debug, Clone, PartialEq, Eq)]
pub enum EmbedReply {
    /// Answer with this text and stop.
    Refuse(String),
    /// Answer with this text, then download the URL.
    Proceed(String),
}

/// The first answer to an embed command for `url`.
pub fn embed_command_reply(downloader: &MediaDownloader, url: &str) -> (r: EmbedReply)
    ensures
        url@.len() == 0 ==> (r matches EmbedReply::Refuse(t) && t@ == "Please provide a valid URL."@),
        url@.len() > 0 ==> (r matches EmbedReply::Proceed(t) && t@ == "Downloading media..."@),
{
    if url.unicode_len() == 0 {
        return EmbedReply::Refuse("Please provide a valid URL.".to_owned());
    }
    if !downloader.is_supported_url(url) {
        return EmbedReply::Refuse("This URL is not supported.".to_owned());
    }
    EmbedReply::Proceed("Downloading media...".to_owned())
}

/// The line that reports one file left out for its size.
pub open spec fn skipped_line(u: Unshrinkable) -> Seq<char> {
    u.filename@ + " ("@ + grouped(decimal_digits(u.size as nat)) + " bytes) is over the size limit"@
}

/// `text` followed by one line for each file, each on its own line.
pub open spec fn with_lines(text: Seq<char>, files: Seq<Unshrinkable>) -> Seq<char>
    decreases files.len(),
{
    if files.len() == 0 {
        text
    } else {
        with_lines(text, files.drop_last()) + "\n"@ + skipped_line(files.last())
    }
}

fn append_lines(text: &mut String, files: &Vec<Unshrinkable>)
    ensures
        final(text)@ == with_lines(old(text)@, files@),
{
    let mut i: usize = 0;
    while i < files.len()
        invariant
            0 <= i <= files@.len(),
            text@ == with_lines(old(text)@, files@.subrange(0, i as int)),
        decreases files@.len() - i,
    {
        let ghost head = files@.subrange(0, i as int + 1);
        assert(head.drop_last() =~= files@.subrange(0, i as int));
        text.append("\n");
        text.append(files[i].filename.as_str());
        text.append(" (");
        text.append(format_number(files[i].size).as_str());
        text.append(" bytes) is over the size limit");
        i += 1;
        assert(text@ =~= with_lines(old(text)@, files@.subrange(0, i as int)));
    }
    assert(files@.subrange(0, i as int) =~= files@);
}

/// The caption of a delivery: the source URL, then one line for each file left
/// out for its size, with its name and size.
pub fn delivery_caption(url: &str, skipped: &Vec<Unshrinkable>) -> (r: String)
    ensures
        r@ == with_lines(url@, skipped@),
{
    let mut text = url.to_owned();
    append_lines(&mut text, skipped);
    text
}

/// The message of a request whose every file was too large, naming each one.
pub fn oversized_message(files: &Vec<Unshrinkable>) -> (r: String)
    ensures
        r@ == with_lines("Every file is over the size limit:"@, files@),
{
    let mut text = "Every file is over the size limit:".to_owned();
    append_lines(&mut text, files);
    text
}

/// How a failed request is described to the person who asked.
#[derive(Debug, Clone, Copy, PartialEq, Eq, Structural)]
pub enum FailureClass {
    /// Nothing was found to download at the URL.
    Unsupported,
    /// The media could not be fetched over the network.
    Network,
    /// A tool or a transfer ran out of time.
    Timeout,
    /// Anything else.
    Generic,
}

/// How much a class says: a timeout says most, then a network failure, then
/// an unsupported URL.
pub open spec fn rank(c: FailureClass) -> nat {
    match c {
        FailureClass::Timeout => 3,
        FailureClass::Network => 2,
        FailureClass::Unsupported => 1,
        FailureClass::Generic => 0,
    }
}

/// The class of one backend's failure.
pub open spec fn class_of(e: DownloadError) -> FailureClass {
    match e {
        DownloadError::ExtractionTimeout => FailureClass::Timeout,
        DownloadError::DownloadTimeout => FailureClass::Timeout,
        DownloadError::AllItemsFailed(_) => FailureClass::Network,
        DownloadError::NoMediaFound => FailureClass::Unsupported,
        DownloadError::NoUrlsExtracted => FailureClass::Unsupported,
        _ => FailureClass::Generic,
    }
}

/// The class of a chain of backend failures: the class of highest rank among
/// them, `Generic` for an empty chain.
pub open spec fn chain_class(attempts: Seq<BackendFailure>) -> FailureClass
    decreases attempts.len(),
{
    if attempts.len() == 0 {
        FailureClass::Generic
    } else {
        let earlier = chain_class(attempts.drop_last());
        let last = class_of(attempts.last().error);
        if rank(last) > rank(earlier) {
            last
        } else {
            earlier
        }
    }
}

/// The class of a request's failure: for a chain of backends, the class of
/// the chain; otherwise the class of the error itself.
pub open spec fn failure_class_of(e: DownloadError) -> FailureClass {
    match e {
        DownloadError::AllBackendsFailed(v) => chain_class(v@),
        _ => class_of(e),
    }
}

fn classify_one(e: &DownloadError) -> (r: FailureClass)
    ensures
        r == class_of(*e),
{
    match e {
        DownloadError::ExtractionTimeout => FailureClass::Timeout,
        DownloadError::DownloadTimeout => FailureClass::Timeout,
        DownloadError::AllItemsFailed(_) => FailureClass::Network,
        DownloadError::NoMediaFound => FailureClass::Unsupported,
        DownloadError::NoUrlsExtracted => FailureClass::Unsupported,
        _ => FailureClass::Generic,
    }
}

fn rank_of(c: FailureClass) -> (r: u8)
    ensures
        r as nat == rank(c),
{
    match c {
        FailureClass::Timeout => 3,
        FailureClass::Network => 2,
        FailureClass::Unsupported => 1,
        FailureClass::Generic => 0,
    }
}

/// Classifies a request's failure for the person who asked, without the tools'
/// own error text.
pub fn classify_failure(e: &DownloadError) -> (r: FailureClass)
    ensures
        r == failure_class_of(*e),
{
    match e {
        DownloadError::AllBackendsFailed(attempts) => {
            let mut class = FailureClass::Generic;
            let mut i: usize = 0;
            while i < attempts.len()
                invariant
                    0 <= i <= attempts@.len(),
                    class == chain_class(attempts@.subrange(0, i as int)),
                decreases attempts@.len() - i,
            {
                let ghost head = attempts@.subrange(0, i as int + 1);
                assert(head.drop_last() =~= attempts@.subrange(0, i as int));
                let c = classify_one(&attempts[i].error);
                if rank_of(c) > rank_of(class) {
                    class = c;
                }
                i += 1;
            }
            assert(attempts@.subrange(0, i as int) =~= attempts@);
            class
        },
        _ => classify_one(e),
    }
}

/// The text that tells the person who asked why the request failed.
pub open spec fn failure_text(c: FailureClass) -> Seq<char> {
    match c {
        FailureClass::Unsupported => "No media could be found at this URL."@,
        FailureClass::Network => "The media could not be fetched."@,
        FailureClass::Timeout => "The download took too long."@,
        FailureClass::Generic => "The download failed."@,
    }
}

/// The message for a failed request.
pub fn failure_message(e: &DownloadError) -> (r: String)
    ensures
        r@ == failure_text(failure_class_of(*e)),
{
    match classify_failure(e) {
        FailureClass::Unsupported => "No media could be found at this URL.".to_owned(),
        FailureClass::Network => "The media could not be fetched.".to_owned(),
        FailureClass::Timeout => "The download took too long.".to_owned(),
        FailureClass::Generic => "The download failed.".to_owned(),
    }
}

} // verus!
