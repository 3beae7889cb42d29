//! Size remediation: a file within the byte budget passes through untouched;
//! a larger one becomes a shrink job (an image is downscaled, a video is
//! re-encoded in two passes at a bitrate derived from its length), which ends
//! either in a file that fits or in a file that cannot be delivered.
use crate::json::strings_view;
use crate::types::MediaFile;
use crate::utils::{decimal_digits, decimal_string, ends_with, ends_with_text};
use vstd::prelude::*;
use vstd::string::*;

verus! {

/// What a file holds.
#[derive(Debug, Clone, Copy, PartialEq, Eq, Structural)]
pub enum MediaKind {
    Image,
    Video,
}

/// Whether `name` ends in the extension of an image format.
pub open spec fn image_name(name: Seq<char>) -> bool {
    ends_with(name, ".jpg"@) || ends_with(name, ".jpeg"@) || ends_with(name, ".png"@) || ends_with(
        name,
        ".webp"@,
    ) || ends_with(name, ".gif"@)
}

impl MediaKind {
    /// The kind of a file after its name: an image for the image extensions,
    /// a video for anything else.
    pub fn of_filename(name: &str) -> (r: MediaKind)
        ensures
            (r == MediaKind::Image) == image_name(name@),
    {
        if ends_with_text(name, ".jpg") || ends_with_text(name, ".jpeg") || ends_with_text(
            name,
            ".png",
        ) || ends_with_text(name, ".webp") || ends_with_text(name, ".gif") {
            MediaKind::Image
        } else {
            MediaKind::Video
        }
    }
}

/// The first step for one file.
#[derive(Debug)]
pub enum Remediation {
    /// The file fits the budget and is delivered as it is; nothing is run.
    UnderBudget(MediaFile),
    /// The file is over the budget and must be shrunk.
    NeedsShrink(ShrinkJob),
}

/// A file that is over its budget, with what is needed to shrink it.
#[derive(Debug)]
pub struct ShrinkJob {
    pub file: MediaFile,
    pub kind: MediaKind,
    pub budget_bytes: u64,
}

/// A file that could not be brought under its budget: it is left out of the
/// delivery and reported by name and size.
#[derive(Debug, Clone, PartialEq, Eq)]
pub struct Unshrinkable {
    pub filename: String,
    /// The size of the file before any attempt, in bytes.
    pub size: u64,
    /// What went wrong.
    pub reason: String,
}

/// The bitrates of a two-pass re-encode, in bits per second.
#[derive(Debug, Clone, Copy, PartialEq, Eq, Structural)]
pub struct Bitrates {
    pub total: u64,
    pub video: u64,
    pub audio: u64,
}

/// The bitrates that make `duration` seconds of media fill `budget` bytes: the
/// total is `budget * 8 / duration`, nine tenths of it for video and one tenth
/// for audio, each truncated to an integer.
pub open spec fn target_bitrates(budget: nat, duration: nat) -> Bitrates
    recommends
        duration > 0,
{
    let total = budget * 8 / duration;
    Bitrates { total: total as u64, video: (total * 9 / 10) as u64, audio: (total / 10) as u64 }
}

/// The first step for `file` under `budget` bytes.
pub open spec fn remediation(file: MediaFile, kind: MediaKind, budget: u64) -> Remediation {
    if file.data@.len() <= budget {
        Remediation::UnderBudget(file)
    } else {
        Remediation::NeedsShrink(ShrinkJob { file, kind, budget_bytes: budget })
    }
}

/// The reason given when the shrunk file is still over the budget.
pub open spec fn still_too_large() -> Seq<char> {
    "the shrunk file is still over the size limit"@
}

/// The reason given when the transcoder produced nothing.
pub open spec fn empty_output() -> Seq<char> {
    "the transcoder produced an empty file"@
}

/// How a shrink job ends, given what the transcoder produced or its error text:
/// a file under the old name when the output is non-empty and fits, else
/// `Unshrinkable` with the original name and size.
pub open spec fn conclusion(job: ShrinkJob, produced: Result<Vec<u8>, String>) -> Result<
    (Seq<char>, Seq<u8>),
    (Seq<char>, nat, Seq<char>),
> {
    match produced {
        Ok(d) => if 0 < d@.len() <= job.budget_bytes {
            Ok((job.file.filename@, d@))
        } else if d@.len() == 0 {
            Err((job.file.filename@, job.file.data@.len(), empty_output()))
        } else {
            Err((job.file.filename@, job.file.data@.len(), still_too_large()))
        },
        Err(why) => Err((job.file.filename@, job.file.data@.len(), why@)),
    }
}

/// The view of a concluded job.
pub open spec fn concluded_view(r: Result<MediaFile, Unshrinkable>) -> Result<
    (Seq<char>, Seq<u8>),
    (Seq<char>, nat, Seq<char>),
> {
    match r {
        Ok(f) => Ok((f.filename@, f.data@)),
        Err(u) => Err((u.filename@, u.size as nat, u.reason@)),
    }
}

/// The files that can be delivered, in their order.
pub open spec fn delivered(results: Seq<Result<MediaFile, Unshrinkable>>) -> Seq<MediaFile>
    decreases results.len(),
{
    if results.len() == 0 {
        Seq::empty()
    } else {
        match results[0] {
            Ok(f) => seq![f] + delivered(results.drop_first()),
            Err(_) => delivered(results.drop_first()),
        }
    }
}

/// The files that could not be shrunk, in their order.
pub open spec fn skipped(results: Seq<Result<MediaFile, Unshrinkable>>) -> Seq<Unshrinkable>
    decreases results.len(),
{
    if results.len() == 0 {
        Seq::empty()
    } else {
        match results[0] {
            Ok(_) => skipped(results.drop_first()),
            Err(u) => seq![u] + skipped(results.drop_first()),
        }
    }
}

/// The output extension of an image: png, jpg or webp after the name's own
/// ending, jpg for anything else.
pub open spec fn image_ext(name: Seq<char>) -> Seq<char> {
    if ends_with(name, ".png"@) {
        "png"@
    } else if ends_with(name, ".jpg"@) || ends_with(name, ".jpeg"@) {
        "jpg"@
    } else if ends_with(name, ".webp"@) {
        "webp"@
    } else {
        "jpg"@
    }
}

/// The output extension of a video: mp4, webm or mov after the name's own
/// ending, mp4 for anything else.
pub open spec fn video_ext(name: Seq<char>) -> Seq<char> {
    if ends_with(name, ".mp4"@) {
        "mp4"@
    } else if ends_with(name, ".webm"@) {
        "webm"@
    } else if ends_with(name, ".mov"@) {
        "mov"@
    } else {
        "mp4"@
    }
}

/// The downscaling filter for images: at most 1280 by 720, aspect ratio kept,
/// never enlarged.
pub open spec fn image_filter() -> Seq<char> {
    "scale=iw*min(1\\,min(1280/iw\\,720/ih)):ih*min(1\\,min(1280/iw\\,720/ih))"@
}

/// The downscaling filter for videos: at most 720 by 480, aspect ratio kept.
pub open spec fn video_filter() -> Seq<char> {
    "scale='min(720\\,iw*2/2):min(480\\,ih*2/2):force_original_aspect_ratio=decrease'"@
}

/// A rate in kilobits per second as the transcoder reads it: `{bps / 1000}k`.
pub open spec fn kbps_arg(bps: u64) -> Seq<char> {
    decimal_digits((bps / 1000) as nat).push('k')
}

/// The transcoder arguments of the image shrink.
pub open spec fn image_arguments(input: Seq<char>, output: Seq<char>) -> Seq<Seq<char>> {
    seq!["-i"@, input, "-vf"@, image_filter(), "-quality"@, "85"@, "-y"@, output]
}

/// The transcoder arguments of the first video pass: it writes only the
/// rate-control log under `log`, no media.
pub open spec fn first_pass_arguments(input: Seq<char>, log: Seq<char>, rates: Bitrates) -> Seq<
    Seq<char>,
> {
    seq![
        "-i"@,
        input,
        "-vf"@,
        video_filter(),
        "-c:v"@,
        "libx264"@,
        "-preset"@,
        "slow"@,
        "-b:v"@,
        kbps_arg(rates.video),
        "-pass"@,
        "1"@,
        "-passlogfile"@,
        log,
        "-an"@,
        "-f"@,
        "null"@,
        "-y"@,
        "-"@,
    ]
}

/// The transcoder arguments of the second video pass: it reads the log under
/// `log` and writes the file.
pub open spec fn second_pass_arguments(
    input: Seq<char>,
    log: Seq<char>,
    output: Seq<char>,
    rates: Bitrates,
) -> Seq<Seq<char>> {
    seq![
        "-i"@,
        input,
        "-vf"@,
        video_filter(),
        "-c:v"@,
        "libx264"@,
        "-preset"@,
        "slow"@,
        "-b:v"@,
        kbps_arg(rates.video),
        "-pass"@,
        "2"@,
        "-passlogfile"@,
        log,
        "-c:a"@,
        "aac"@,
        "-b:a"@,
        kbps_arg(rates.audio),
        "-movflags"@,
        "+faststart"@,
        "-y"@,
        output,
    ]
}

/// Whether a file of `size` bytes must be shrunk to fit `budget` bytes.
pub fn needs_remediation(size: usize, budget_bytes: u64) -> (r: bool)
    ensures
        r == (size > budget_bytes),
{
    size as u64 > budget_bytes
}

/// Takes the first step for `file` under `budget_bytes`: a file that fits
/// passes through as it is, with nothing run; a larger one becomes a shrink job.
pub fn remediate(file: MediaFile, kind: MediaKind, budget_bytes: u64) -> (r: Remediation)
    ensures
        r == remediation(file, kind, budget_bytes),
{
    if needs_remediation(file.data.len(), budget_bytes) {
        Remediation::NeedsShrink(ShrinkJob { file, kind, budget_bytes })
    } else {
        Remediation::UnderBudget(file)
    }
}

/// The bitrates for `duration_secs` seconds of media in `budget_bytes` bytes.
pub fn derive_bitrates(budget_bytes: u64, duration_secs: u64) -> (r: Bitrates)
    requires
        duration_secs > 0,
        budget_bytes <= u64::MAX / 8,
    ensures
        r == target_bitrates(budget_bytes as nat, duration_secs as nat),
{
    let total = budget_bytes * 8 / duration_secs;
    assert(total <= budget_bytes * 8) by (nonlinear_arith)
        requires
            total as int == (budget_bytes as int * 8) / (duration_secs as int),
            duration_secs > 0,
    ;
    let video = total / 10 * 9 + total % 10 * 9 / 10;
    assert(video == total * 9 / 10) by (nonlinear_arith)
        requires
            video == total / 10 * 9 + total % 10 * 9 / 10,
    ;
    Bitrates { total, video, audio: total / 10 }
}

fn push_arg(args: &mut Vec<String>, a: &str)
    ensures
        strings_view(final(args)@) == strings_view(old(args)@).push(a@),
{
    args.push(a.to_owned());
    assert(strings_view(final(args)@) =~= strings_view(old(args)@).push(a@));
}

fn push_owned(args: &mut Vec<String>, a: String)
    ensures
        strings_view(final(args)@) == strings_view(old(args)@).push(a@),
{
    args.push(a);
    assert(strings_view(final(args)@) =~= strings_view(old(args)@).push(a@));
}

fn kbps(bps: u64) -> (r: String)
    ensures
        r@ == kbps_arg(bps),
{
    let mut s = decimal_string(bps / 1000);
    s.push('k');
    s
}

impl ShrinkJob {
    /// The extension of the shrunk file, after the file's own name.
    pub fn output_ext(&self) -> (r: &'static str)
        ensures
            r@ == (if self.kind == MediaKind::Image {
                image_ext(self.file.filename@)
            } else {
                video_ext(self.file.filename@)
            }),
    {
        let name = self.file.filename.as_str();
        match self.kind {
            MediaKind::Image => {
                if ends_with_text(name, ".png") {
                    "png"
                } else if ends_with_text(name, ".jpg") || ends_with_text(name, ".jpeg") {
                    "jpg"
                } else if ends_with_text(name, ".webp") {
                    "webp"
                } else {
                    "jpg"
                }
            },
            MediaKind::Video => {
                if ends_with_text(name, ".mp4") {
                    "mp4"
                } else if ends_with_text(name, ".webm") {
                    "webm"
                } else if ends_with_text(name, ".mov") {
                    "mov"
                } else {
                    "mp4"
                }
            },
        }
    }

    /// The bitrates for the video, given its measured length in whole seconds;
    /// `Unshrinkable` when the length is unknown or zero.
    pub fn plan_video(&self, duration_secs: Option<u64>) -> (r: Result<Bitrates, Unshrinkable>)
        ensures
            match duration_secs {
                Some(d) if d > 0 && self.budget_bytes <= u64::MAX / 8 => r == Ok::<
                    Bitrates,
                    Unshrinkable,
                >(target_bitrates(self.budget_bytes as nat, d as nat)),
                _ => r is Err,
            },
            r matches Err(u) ==> u.filename@ == self.file.filename@ && u.size == self.file.data@.len(),
    {
        let budget = if self.budget_bytes <= u64::MAX / 8 {
            self.budget_bytes
        } else {
            return Err(self.unshrinkable("the size limit is too large to derive a bitrate"));
        };
        match duration_secs {
            Some(d) => {
                if d == 0 {
                    return Err(self.unshrinkable("the media has no measurable length"));
                }
                Ok(derive_bitrates(budget, d))
            },
            None => Err(self.unshrinkable("the media's length could not be measured")),
        }
    }

    fn unshrinkable(&self, reason: &str) -> (r: Unshrinkable)
        ensures
            r.filename@ == self.file.filename@,
            r.size == self.file.data@.len(),
            r.reason@ == reason@,
    {
        Unshrinkable {
            filename: self.file.filename.clone(),
            size: self.file.data.len() as u64,
            reason: reason.to_owned(),
        }
    }

    /// Whether the second video pass may run: only when the first pass left
    /// its rate-control log; otherwise the job ends `Unshrinkable`.
    pub fn check_first_pass(&self, log_written: bool) -> (r: Result<(), Unshrinkable>)
        ensures
            r is Ok == log_written,
            r matches Err(u) ==> u.filename@ == self.file.filename@ && u.size
                == self.file.data@.len() && u.reason@ == "the first pass left no rate-control log"@,
    {
        if log_written {
            Ok(())
        } else {
            Err(self.unshrinkable("the first pass left no rate-control log"))
        }
    }

    /// The transcoder arguments that downscale the image at `input` into `output`.
    pub fn image_args(&self, input: &str, output: &str) -> (r: Vec<String>)
        ensures
            strings_view(r@) == image_arguments(input@, output@),
    {
        let mut args: Vec<String> = Vec::new();
        push_arg(&mut args, "-i");
        push_arg(&mut args, input);
        push_arg(&mut args, "-vf");
        push_arg(
            &mut args,
            "scale=iw*min(1\\,min(1280/iw\\,720/ih)):ih*min(1\\,min(1280/iw\\,720/ih))",
        );
        push_arg(&mut args, "-quality");
        push_arg(&mut args, "85");
        push_arg(&mut args, "-y");
        push_arg(&mut args, output);
        assert(strings_view(args@) =~= image_arguments(input@, output@));
        args
    }

    /// The arguments of the first video pass, which writes the rate-control
    /// log under `log` and no media.
    pub fn first_pass_args(&self, input: &str, log: &str, rates: Bitrates) -> (r: Vec<String>)
        ensures
            strings_view(r@) == first_pass_arguments(input@, log@, rates),
    {
        let mut args: Vec<String> = Vec::new();
        push_arg(&mut args, "-i");
        push_arg(&mut args, input);
        push_arg(&mut args, "-vf");
        push_arg(
            &mut args,
            "scale='min(720\\,iw*2/2):min(480\\,ih*2/2):force_original_aspect_ratio=decrease'",
        );
        push_arg(&mut args, "-c:v");
        push_arg(&mut args, "libx264");
        push_arg(&mut args, "-preset");
        push_arg(&mut args, "slow");
        push_arg(&mut args, "-b:v");
        push_owned(&mut args, kbps(rates.video));
        push_arg(&mut args, "-pass");
        push_arg(&mut args, "1");
        push_arg(&mut args, "-passlogfile");
        push_arg(&mut args, log);
        push_arg(&mut args, "-an");
        push_arg(&mut args, "-f");
        push_arg(&mut args, "null");
        push_arg(&mut args, "-y");
        push_arg(&mut args, "-");
        assert(strings_view(args@) =~= first_pass_arguments(input@, log@, rates));
        args
    }

    /// The arguments of the second video pass, which reads the log under `log`
    /// and writes the file to `output`.
    pub fn second_pass_args(&self, input: &str, log: &str, output: &str, rates: Bitrates) -> (r: Vec<
        String,
    >)
        ensures
            strings_view(r@) == second_pass_arguments(input@, log@, output@, rates),
    {
        let mut args: Vec<String> = Vec::new();
        push_arg(&mut args, "-i");
        push_arg(&mut args, input);
        push_arg(&mut args, "-vf");
        push_arg(
            &mut args,
            "scale='min(720\\,iw*2/2):min(480\\,ih*2/2):force_original_aspect_ratio=decrease'",
        );
        push_arg(&mut args, "-c:v");
        push_arg(&mut args, "libx264");
        push_arg(&mut args, "-preset");
        push_arg(&mut args, "slow");
        push_arg(&mut args, "-b:v");
        push_owned(&mut args, kbps(rates.video));
        push_arg(&mut args, "-pass");
        push_arg(&mut args, "2");
        push_arg(&mut args, "-passlogfile");
        push_arg(&mut args, log);
        push_arg(&mut args, "-c:a");
        push_arg(&mut args, "aac");
        push_arg(&mut args, "-b:a");
        push_owned(&mut args, kbps(rates.audio));
        push_arg(&mut args, "-movflags");
        push_arg(&mut args, "+faststart");
        push_arg(&mut args, "-y");
        push_arg(&mut args, output);
        assert(strings_view(args@) =~= second_pass_arguments(input@, log@, output@, rates));
        args
    }

    /// Ends the job with what the transcoder produced, or its error text.
    pub fn conclude(self, produced: Result<Vec<u8>, String>) -> (r: Result<MediaFile, Unshrinkable>)
        ensures
            concluded_view(r) == conclusion(self, produced),
    {
        match produced {
            Ok(data) => {
                if data.len() > 0 && data.len() as u64 <= self.budget_bytes {
                    Ok(MediaFile { filename: self.file.filename, data })
                } else if data.len() == 0 {
                    Err(self.unshrinkable("the transcoder produced an empty file"))
                } else {
                    Err(self.unshrinkable("the shrunk file is still over the size limit"))
                }
            },
            Err(why) => Err(
                Unshrinkable {
                    filename: self.file.filename,
                    size: self.file.data.len() as u64,
                    reason: why,
                },
            ),
        }
    }
}

/// The files of one request after remediation: those to deliver, and those
/// left out because they could not be shrunk.
#[derive(Debug)]
pub struct Settled {
    pub files: Vec<MediaFile>,
    pub skipped: Vec<Unshrinkable>,
}

/// Gathers the remediated files of one request, in order. Files that could not
/// be shrunk are left out and listed; when no file is left, the request fails
/// with the list of every file that was too large.
pub fn settle(results: Vec<Result<MediaFile, Unshrinkable>>) -> (r: Result<Settled, Vec<Unshrinkable>>)
    ensures
        delivered(results@).len() > 0 ==> (r matches Ok(s) && s.files@ == delivered(results@)
            && s.skipped@ == skipped(results@)),
        delivered(results@).len() == 0 ==> (r matches Err(v) && v@ == skipped(results@)),
{
    let mut rest = results;
    let mut files: Vec<MediaFile> = Vec::new();
    let mut left_out: Vec<Unshrinkable> = Vec::new();
    while rest.len() > 0
        invariant
            files@ + delivered(rest@) == delivered(results@),
            left_out@ + skipped(rest@) == skipped(results@),
        decreases rest@.len(),
    {
        let ghost before = rest@;
        let first = rest.remove(0);
        assert(rest@ =~= before.drop_first());
        match first {
            Ok(f) => {
                files.push(f);
            },
            Err(u) => {
                left_out.push(u);
            },
        }
        assert(files@ + delivered(rest@) =~= delivered(results@));
        assert(left_out@ + skipped(rest@) =~= skipped(results@));
    }
    assert(files@ =~= delivered(results@));
    assert(left_out@ =~= skipped(results@));
    if files.len() == 0 {
        Err(left_out)
    } else {
        Ok(Settled { files, skipped: left_out })
    }
}

/// A file exactly at the budget passes through unchanged, and nothing is run.
pub proof fn lemma_at_budget_unchanged(file: MediaFile, kind: MediaKind, budget: u64)
    requires
        file.data@.len() == budget,
    ensures
        remediation(file, kind, budget) == Remediation::UnderBudget(file),
{
}

/// Remediating a file that fits, and then remediating the result again, gives
/// the same file both times.
pub proof fn lemma_remediation_idempotent(file: MediaFile, kind: MediaKind, budget: u64)
    requires
        file.data@.len() <= budget,
    ensures
        remediation(file, kind, budget) == Remediation::UnderBudget(file),
        remediation(file, kind, budget) matches Remediation::UnderBudget(once) && remediation(
            once,
            kind,
            budget,
        ) == Remediation::UnderBudget(file),
{
}

/// A file one byte over the budget becomes a shrink job; when the transcoder
/// fails it ends `Unshrinkable` with its name and size, and it is left out of
/// the delivery while the files beside it are delivered in order.
pub proof fn lemma_unshrinkable_left_out(
    file: MediaFile,
    kind: MediaKind,
    why: String,
    before: Seq<Result<MediaFile, Unshrinkable>>,
    after: Seq<Result<MediaFile, Unshrinkable>>,
    u: Unshrinkable,
)
    requires
        file.data@.len() >= 1,
        conclusion(ShrinkJob { file, kind, budget_bytes: (file.data@.len() - 1) as u64 }, Err(why))
            == concluded_view(Err(u)),
    ensures
        remediation(file, kind, (file.data@.len() - 1) as u64) == Remediation::NeedsShrink(
            ShrinkJob { file, kind, budget_bytes: (file.data@.len() - 1) as u64 },
        ),
        u.filename@ == file.filename@,
        u.size == file.data@.len(),
        delivered(before + seq![Err(u)] + after) == delivered(before) + delivered(after),
        skipped(before + seq![Err(u)] + after) == skipped(before) + seq![u] + skipped(after),
{
    lemma_delivered_concat(before, seq![Err(u)] + after);
    assert(before + seq![Err(u)] + after == before + (seq![Err(u)] + after));
    assert((seq![Err(u)] + after).drop_first() =~= after);
}

/// `delivered` and `skipped` distribute over concatenation.
proof fn lemma_delivered_concat(
    a: Seq<Result<MediaFile, Unshrinkable>>,
    b: Seq<Result<MediaFile, Unshrinkable>>,
)
    ensures
        delivered(a + b) == delivered(a) + delivered(b),
        skipped(a + b) == skipped(a) + skipped(b),
    decreases a.len(),
{
    if a.len() == 0 {
        assert(a + b =~= b);
        assert(delivered(a) + delivered(b) =~= delivered(b));
        assert(skipped(a) + skipped(b) =~= skipped(b));
    } else {
        assert((a + b).drop_first() =~= a.drop_first() + b);
        lemma_delivered_concat(a.drop_first(), b);
        assert(delivered(a + b) =~= delivered(a) + delivered(b));
        assert(skipped(a + b) =~= skipped(a) + skipped(b));
    }
}

} // verus!
