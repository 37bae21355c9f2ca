//! Serving a stored image: which file answers a request and how it is sent.

use vstd::prelude::*;
use crate::config::Config;
use crate::reply::{
    error_reply, BodyView, Reply, ReplyBody, ReplyView, STATUS_INTERNAL_SERVER_ERROR,
    STATUS_NOT_FOUND, STATUS_OK,
};
use crate::text::{ends_with, no_separator};
use image::{DynamicImage, ImageError, ImageOutputFormat};

verus! {

#[verifier::external_type_specification]
#[verifier::external_body]
pub struct ExDynamicImage(DynamicImage);

#[verifier::external_type_specification]
#[verifier::external_body]
pub struct ExImageError(ImageError);

/// What `str::to_lowercase` returns for a text (Unicode lower case mapping,
/// the same on every machine).
pub uninterp spec fn lowercase_text(s: Seq<char>) -> Seq<char>;

/// What `Path::with_extension` returns for a path and an extension: the path
/// with the extension of its last component replaced (or added).
pub uninterp spec fn path_with_extension(path: Seq<char>, ext: Seq<char>) -> Seq<char>;

/// Text made only of ASCII characters.
pub open spec fn is_ascii_text(s: Seq<char>) -> bool {
    forall|i: int| 0 <= i < s.len() ==> (#[trigger] s[i] as u32) < 128
}

/// An ASCII upper case letter turned lower case; any other character as it is.
pub open spec fn ascii_lower(c: char) -> char {
    if 'A' <= c && c <= 'Z' {
        ((c as u32) + 32) as char
    } else {
        c
    }
}

/// ASCII text lower-cased letter by letter.
pub open spec fn ascii_lowered(s: Seq<char>) -> Seq<char> {
    s.map_values(|c: char| ascii_lower(c))
}

/// `str::to_lowercase`. On ASCII text it maps `A`-`Z` to `a`-`z` and leaves
/// every other character as it is.
#[verifier::external_body]
fn to_lowercase(s: &str) -> (res: String)
    ensures
        res@ == lowercase_text(s@),
        is_ascii_text(s@) ==> res@ == ascii_lowered(s@),
{
    s.to_lowercase()
}

/// `Path::with_extension` on a path given as text, read back as text. Both
/// arguments are UTF-8 and the path is cut at an ASCII `.`, so the result is
/// UTF-8 and the lossy conversion loses nothing. Recent `std` panics when the
/// extension holds a path separator, so `requires` leaves that out.
#[verifier::external_body]
fn with_extension(path: &str, ext: &str) -> (res: String)
    requires
        no_separator(ext@),
    ensures
        res@ == path_with_extension(path@, ext@),
{
    std::path::Path::new(path).with_extension(ext).to_string_lossy().into_owned()
}

/// The file extensions that are served as they are, in the order in which
/// stored files are looked for.
pub open spec fn image_extensions() -> Seq<Seq<char>> {
    seq!["jpg"@, "gif"@, "png"@, "webp"@]
}

/// A requested file name with an explicit image file ending: in lower case,
/// it ends with `.` and one of the image extensions.
pub open spec fn has_image_extension(filename: Seq<char>) -> bool {
    exists|i: int|
        0 <= i < 4 && (seq!['.'] + #[trigger] image_extensions()[i]).is_suffix_of(
            lowercase_text(filename),
        )
}

/// Whether the requested file name has an explicit image file ending (case
/// does not matter): `.jpg`, `.gif`, `.png` or `.webp`.
pub fn has_valid_extension(filename: &str) -> (res: bool)
    ensures
        res == has_image_extension(filename@),
        is_ascii_text(filename@) ==> lowercase_text(filename@) == ascii_lowered(filename@),
{
    let lower = to_lowercase(filename);
    let a = ends_with(lower.as_str(), ".jpg");
    let b = ends_with(lower.as_str(), ".gif");
    let c = ends_with(lower.as_str(), ".png");
    let d = ends_with(lower.as_str(), ".webp");
    proof {
        reveal_strlit(".jpg");
        reveal_strlit(".gif");
        reveal_strlit(".png");
        reveal_strlit(".webp");
        reveal_strlit("jpg");
        reveal_strlit("gif");
        reveal_strlit("png");
        reveal_strlit("webp");
        let exts = image_extensions();
        assert(seq!['.'] + exts[0] =~= ".jpg"@);
        assert(seq!['.'] + exts[1] =~= ".gif"@);
        assert(seq!['.'] + exts[2] =~= ".png"@);
        assert(seq!['.'] + exts[3] =~= ".webp"@);
    }
    a || b || c || d
}

/// Whether a found file is sent as stored: when WebP delivery is off, or
/// when the requested name already ends with an image extension.
pub open spec fn sends_as_stored(serve_as_webp: bool, filename: Seq<char>) -> bool {
    !serve_as_webp || has_image_extension(filename)
}

/// The path a request for `filename` in `bucket` names: `parent/bucket/filename`.
pub open spec fn requested_path(parent: Seq<char>, bucket: Seq<char>, filename: Seq<char>) -> Seq<char> {
    parent + "/"@ + bucket + "/"@ + filename
}

/// The reply for a bucket that is not configured.
pub open spec fn bucket_unavailable() -> ReplyView {
    error_reply(STATUS_NOT_FOUND, "The requested bucket does not exist or is not accessible."@)
}

/// The reply for a file that is not there.
pub open spec fn file_not_found() -> ReplyView {
    error_reply(STATUS_NOT_FOUND, "File not found."@)
}

/// Where to look for a requested file, and whether it is sent as stored.
#[derive(Debug)]
pub struct ServeLookup {
    /// The requested path itself.
    pub base: String,
    /// The paths to look at first: none when the requested name has an
    /// explicit image file ending (it is looked for as given); otherwise the
    /// requested path with each image extension, in the order of
    /// `image_extensions`.
    pub candidates: Vec<String>,
    /// Whether the file is sent as stored rather than converted to WebP.
    pub as_is: bool,
}

/// Plans a request for `filename` in `bucket`: refuses an unknown bucket,
/// otherwise lists the paths to look at. A name with an explicit image file
/// ending is looked for as given and sent as stored.
pub fn serve(config: &Config, bucket: &str, filename: &str) -> (res: Result<ServeLookup, Reply>)
    ensures
        match res {
            Err(r) => !config@.buckets.contains(bucket@) && r@ == bucket_unavailable(),
            Ok(l) => {
                &&& is_ascii_text(filename@) ==> lowercase_text(filename@) == ascii_lowered(
                    filename@,
                )
                &&& config@.buckets.contains(bucket@)
                &&& l.base@ == requested_path(config@.parent_directory, bucket@, filename@)
                &&& l.candidates@.len() == if has_image_extension(filename@) {
                    0int
                } else {
                    4int
                }
                &&& forall|i: int|
                    0 <= i < l.candidates@.len() ==> (#[trigger] l.candidates@[i])@ == path_with_extension(
                        l.base@,
                        image_extensions()[i],
                    )
                &&& l.as_is == sends_as_stored(config@.serve_as_webp, filename@)
            },
        },
{
    let valid = has_valid_extension(filename);
    if !config.has_bucket(bucket) {
        return Err(
            Reply::error(STATUS_NOT_FOUND, "The requested bucket does not exist or is not accessible."),
        );
    }
    let mut base = config.parent_directory.clone();
    base.append("/");
    base.append(bucket);
    base.append("/");
    base.append(filename);
    let mut candidates: Vec<String> = Vec::new();
    proof {
        reveal_strlit("jpg");
        reveal_strlit("gif");
        reveal_strlit("png");
        reveal_strlit("webp");
    }
    if !valid {
        candidates.push(with_extension(base.as_str(), "jpg"));
        candidates.push(with_extension(base.as_str(), "gif"));
        candidates.push(with_extension(base.as_str(), "png"));
        candidates.push(with_extension(base.as_str(), "webp"));
    }
    proof {
        let exts = image_extensions();
        assert(exts[0] == "jpg"@);
        assert(exts[1] == "gif"@);
        assert(exts[2] == "png"@);
        assert(exts[3] == "webp"@);
    }
    Ok(ServeLookup { base, candidates, as_is: !config.serve_as_webp || valid })
}

/// The first candidate marked as existing, or `base` when none is.
pub open spec fn first_existing(candidates: Seq<Seq<char>>, present: Seq<bool>, base: Seq<char>) -> Seq<char>
    decreases candidates.len(),
{
    if candidates.len() == 0 || present.len() == 0 {
        base
    } else if present[0] {
        candidates[0]
    } else {
        first_existing(candidates.drop_first(), present.drop_first(), base)
    }
}

/// The file that answers the request: the first candidate that exists
/// (`present[i]` tells whether `candidates[i]` does), else the requested path.
pub fn pick_file(lookup: &ServeLookup, present: &Vec<bool>) -> (path: String)
    requires
        present@.len() == lookup.candidates@.len(),
    ensures
        path@ == first_existing(
            lookup.candidates@.map_values(|c: String| c@),
            present@,
            lookup.base@,
        ),
{
    let n = present.len();
    let ghost cands = lookup.candidates@.map_values(|c: String| c@);
    let mut i: usize = 0;
    assert(cands.subrange(0, n as int) =~= cands);
    assert(present@.subrange(0, n as int) =~= present@);
    while i < n
        invariant
            n == present@.len(),
            n == lookup.candidates@.len(),
            cands == lookup.candidates@.map_values(|c: String| c@),
            i <= n,
            first_existing(cands, present@, lookup.base@) == first_existing(
                cands.subrange(i as int, n as int),
                present@.subrange(i as int, n as int),
                lookup.base@,
            ),
        decreases n - i,
    {
        let ghost rest_c = cands.subrange(i as int, n as int);
        let ghost rest_e = present@.subrange(i as int, n as int);
        assert(rest_e[0] == present@[i as int]);
        assert(rest_c[0] == lookup.candidates@[i as int]@);
        if present[i] {
            return lookup.candidates[i].clone();
        }
        assert(rest_c.drop_first() =~= cands.subrange(i + 1, n as int));
        assert(rest_e.drop_first() =~= present@.subrange(i + 1, n as int));
        i = i + 1;
    }
    assert(cands.subrange(n as int, n as int).len() == 0);
    lookup.base.clone()
}

/// How a found path is answered.
#[derive(Debug)]
pub enum ServeAction {
    /// Answer with this reply.
    Refuse(Reply),
    /// Send the stored file as it is.
    SendFile,
    /// Decode the stored image and send it as WebP.
    ConvertToWebp,
}

/// Decides how to answer once the chosen path has been looked at: a path
/// that does not exist, or is a directory, is not found.
pub fn serve_action(as_is: bool, found: bool, is_dir: bool) -> (action: ServeAction)
    ensures
        match action {
            ServeAction::Refuse(r) => (!found || is_dir) && r@ == file_not_found(),
            ServeAction::SendFile => found && !is_dir && as_is,
            ServeAction::ConvertToWebp => found && !is_dir && !as_is,
        },
{
    if !found || is_dir {
        ServeAction::Refuse(Reply::error(STATUS_NOT_FOUND, "File not found."))
    } else if as_is {
        ServeAction::SendFile
    } else {
        ServeAction::ConvertToWebp
    }
}

/// The reply when the chosen file cannot be opened to be sent.
pub fn file_unreadable_reply() -> (r: Reply)
    ensures
        r@ == file_not_found(),
{
    Reply::error(STATUS_NOT_FOUND, "File not found.")
}

/// The reply when the chosen file cannot be decoded as an image.
pub fn image_unreadable_reply() -> (r: Reply)
    ensures
        r@ == error_reply(STATUS_INTERNAL_SERVER_ERROR, "Failed to open or recognize image file."@),
{
    Reply::error(STATUS_INTERNAL_SERVER_ERROR, "Failed to open or recognize image file.")
}

/// The reply to a WebP conversion: the encoded bytes, or a failure.
pub fn webp_reply(encoded: Result<Vec<u8>, ()>) -> (r: Reply)
    ensures
        match encoded {
            Ok(bytes) => r@ == (ReplyView { status: STATUS_OK, body: BodyView::Webp(bytes@) }),
            Err(_) => r@ == error_reply(
                STATUS_INTERNAL_SERVER_ERROR,
                "Failed to convert image to WebP."@,
            ),
        },
{
    match encoded {
        Ok(bytes) => Reply { status: STATUS_OK, body: ReplyBody::Webp(bytes) },
        Err(_) => Reply::error(STATUS_INTERNAL_SERVER_ERROR, "Failed to convert image to WebP."),
    }
}

/// What encoding a decoded image as WebP gives: the encoded bytes, or `None`
/// when the encoder refuses the image. It depends on the image alone.
pub uninterp spec fn webp_encoding(img: DynamicImage) -> Option<Seq<u8>>;

/// `DynamicImage::write_to` with `ImageOutputFormat::WebP` into an in-memory
/// buffer: the encoded bytes, or the encoder's error.
#[verifier::external_body]
fn encode_webp(img: &DynamicImage) -> (res: Result<Vec<u8>, ImageError>)
    ensures
        match res {
            Ok(bytes) => webp_encoding(*img) == Some(bytes@),
            Err(_) => webp_encoding(*img) is None,
        },
{
    let mut buffer = std::io::Cursor::new(Vec::new());
    match img.write_to(&mut buffer, ImageOutputFormat::WebP) {
        Ok(()) => Ok(buffer.into_inner()),
        Err(e) => Err(e),
    }
}

/// The reply that sends a decoded image as WebP.
pub open spec fn webp_result(img: DynamicImage) -> ReplyView {
    match webp_encoding(img) {
        Some(bytes) => ReplyView { status: STATUS_OK, body: BodyView::Webp(bytes) },
        None => error_reply(STATUS_INTERNAL_SERVER_ERROR, "Failed to convert image to WebP."@),
    }
}

/// Encodes a decoded image as WebP and answers with it, or with the
/// conversion failure.
pub fn convert_to_webp(img: &DynamicImage) -> (r: Reply)
    ensures
        r@ == webp_result(*img),
{
    let encoded = match encode_webp(img) {
        Ok(bytes) => Ok(bytes),
        Err(_) => Err(()),
    };
    webp_reply(encoded)
}

} // verus!
