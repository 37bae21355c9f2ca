//! Uploading images into a bucket: who may upload, where files go, the size
//! limit, resizing, and the final answer.

use vstd::prelude::*;
use crate::config::Config;
use crate::reply::{
    error_reply, stored_files_view, BodyView, Reply, ReplyBody, ReplyView, StoredFile,
    STATUS_BAD_REQUEST, STATUS_INTERNAL_SERVER_ERROR, STATUS_NOT_FOUND, STATUS_OK,
    STATUS_PAYLOAD_TOO_LARGE, STATUS_UNAUTHORIZED,
};
use crate::text::{join_path, joined, no_separator};
use image::imageops::FilterType;
use image::{DynamicImage, GenericImageView};

verus! {

/// The most bytes one uploaded file may have: 1 GiB.
pub const MAX_UPLOAD_BYTES: usize = 1073741824;

/// Where an accepted upload goes.
#[derive(Debug)]
pub struct UploadTarget {
    pub bucket: String,
    /// The bucket's directory: `./<parent>/<bucket>`.
    pub data_path: String,
}

/// The directory that uploads to `bucket` go to.
pub open spec fn bucket_dir(parent: Seq<char>, bucket: Seq<char>) -> Seq<char> {
    "./"@ + parent + "/"@ + bucket
}

/// The reply to an upload whose API key was not accepted.
pub open spec fn key_refused() -> ReplyView {
    error_reply(STATUS_UNAUTHORIZED, "Invalid or unauthorized API key."@)
}

/// The reply to an upload into a bucket that is not configured.
pub open spec fn bucket_refused() -> ReplyView {
    error_reply(STATUS_NOT_FOUND, "The requested bucket does not exist or is not accessible."@)
}

/// Decides whether an upload may start: the API key must have been accepted
/// (`key_accepted`, see `check_key`) and the bucket must be configured.
pub fn upload(config: &Config, key_accepted: bool, bucket: &str) -> (res: Result<UploadTarget, Reply>)
    ensures
        match res {
            Ok(t) => {
                &&& key_accepted
                &&& config@.buckets.contains(bucket@)
                &&& t.bucket@ == bucket@
                &&& t.data_path@ == bucket_dir(config@.parent_directory, bucket@)
            },
            Err(r) => if !key_accepted {
                r@ == key_refused()
            } else {
                !config@.buckets.contains(bucket@) && r@ == bucket_refused()
            },
        },
{
    if !key_accepted {
        return Err(Reply::error(STATUS_UNAUTHORIZED, "Invalid or unauthorized API key."));
    }
    if !config.has_bucket(bucket) {
        return Err(
            Reply::error(STATUS_NOT_FOUND, "The requested bucket does not exist or is not accessible."),
        );
    }
    let mut data_path = String::from_str("./");
    data_path.append(config.parent_directory.as_str());
    data_path.append("/");
    data_path.append(bucket);
    Ok(UploadTarget { bucket: String::from_str(bucket), data_path })
}

/// The reply when the bucket's directory is missing on disk.
pub fn bucket_dir_missing_reply() -> (r: Reply)
    ensures
        r@ == error_reply(STATUS_NOT_FOUND, "The requested bucket does not exist."@),
{
    Reply::error(STATUS_NOT_FOUND, "The requested bucket does not exist.")
}

/// A lower case hexadecimal digit.
pub open spec fn is_lower_hex(c: char) -> bool {
    ('0' <= c && c <= '9') || ('a' <= c && c <= 'f')
}

/// The text of a random (version 4) UUID in hyphenated lower case form:
/// `xxxxxxxx-xxxx-4xxx-Vxxx-xxxxxxxxxxxx` with `V` one of `8 9 a b`.
pub open spec fn is_v4_uuid_text(s: Seq<char>) -> bool {
    &&& s.len() == 36
    &&& forall|i: int|
        0 <= i < 36 ==> if i == 8 || i == 13 || i == 18 || i == 23 {
            #[trigger] s[i] == '-'
        } else {
            is_lower_hex(s[i])
        }
    &&& s[14] == '4'
    &&& (s[19] == '8' || s[19] == '9' || s[19] == 'a' || s[19] == 'b')
}

/// `uuid::Uuid::new_v4().to_string()`: a fresh random UUID. `Display` writes
/// the hyphenated lower case form; `new_v4` sets the version nibble to 4 and
/// the variant bits to `10`. The other digits are chance. It panics if the
/// operating system's random source fails; that is not excluded here.
#[verifier::external_body]
fn new_uuid_text() -> (s: String)
    ensures
        is_v4_uuid_text(s@),
{
    uuid::Uuid::new_v4().to_string()
}

/// What `Path::extension` returns for a path given as text: the part of its
/// last component after the last `.`, if there is one.
pub uninterp spec fn path_extension(path: Seq<char>) -> Option<Seq<char>>;

/// `Path::extension` on a path given as text, read back as text. A text path
/// is UTF-8 and is cut at an ASCII `.`, so the conversion loses nothing. The
/// extension is a piece of the last path component, so it holds no `/`.
#[verifier::external_body]
fn extension_of(path: &str) -> (res: Option<String>)
    ensures
        match res {
            Some(e) => path_extension(path@) == Some(e@) && no_separator(e@),
            None => path_extension(path@) is None,
        },
{
    match std::path::Path::new(path).extension() {
        Some(e) => Some(e.to_string_lossy().into_owned()),
        None => None,
    }
}

/// The name an uploaded file was sent under, `unnamed` when it had none.
pub open spec fn sent_name(filename: Option<Seq<char>>) -> Seq<char> {
    match filename {
        Some(n) => n,
        None => "unnamed"@,
    }
}

/// The extension a stored file keeps: that of the sent name, or none.
pub open spec fn kept_extension(filename: Option<Seq<char>>) -> Seq<char> {
    match path_extension(sent_name(filename)) {
        Some(e) => e,
        None => Seq::empty(),
    }
}

/// A file about to be written: its new name and its full path.
#[derive(Debug)]
pub struct NewFile {
    pub name: String,
    pub path: String,
}

/// The reasons a file of an upload could not be processed.
#[derive(Debug)]
pub enum ProcessFailure {
    /// The file is not an image that can be decoded.
    Open,
    /// The processed image could not be written back.
    Save,
}

/// The text a processing failure is reported with.
pub open spec fn process_failure_text(f: ProcessFailure) -> Seq<char> {
    match f {
        ProcessFailure::Open => "Failed to open or recognize image file."@,
        ProcessFailure::Save => "Failed to save processed image."@,
    }
}

/// The disk operations of an upload that can fail.
#[derive(Debug)]
pub enum WriteFailure {
    /// The new file could not be created.
    Create,
    /// A received chunk could not be written.
    Write,
}

/// The reply when the disk fails an upload.
pub fn write_failure_reply(f: WriteFailure) -> (r: Reply)
    ensures
        r@ == error_reply(
            STATUS_INTERNAL_SERVER_ERROR,
            match f {
                WriteFailure::Create => "Failed to create file."@,
                WriteFailure::Write => "Error writing file."@,
            },
        ),
{
    match f {
        WriteFailure::Create => Reply::error(STATUS_INTERNAL_SERVER_ERROR, "Failed to create file."),
        WriteFailure::Write => Reply::error(STATUS_INTERNAL_SERVER_ERROR, "Error writing file."),
    }
}

/// The reply when a file exceeds `MAX_UPLOAD_BYTES`.
pub open spec fn too_large() -> ReplyView {
    error_reply(STATUS_PAYLOAD_TOO_LARGE, "File size exceeds the 1GB limit."@)
}

/// An upload in progress: the files stored so far and the bytes received for
/// the current file.
pub struct UploadSession {
    bucket: String,
    data_path: String,
    files: Vec<StoredFile>,
    received: usize,
}

pub struct UploadSessionView {
    pub bucket: Seq<char>,
    pub data_path: Seq<char>,
    pub files: Seq<(Seq<char>, Seq<char>)>,
    pub received: nat,
}

impl View for UploadSession {
    type V = UploadSessionView;

    closed spec fn view(&self) -> UploadSessionView {
        UploadSessionView {
            bucket: self.bucket@,
            data_path: self.data_path@,
            files: stored_files_view(self.files@),
            received: self.received as nat,
        }
    }
}

impl UploadSessionView {
    /// What every session keeps: the current file is within the limit and
    /// every stored file is listed with the session's bucket.
    pub open spec fn well_formed(self) -> bool {
        &&& self.received <= MAX_UPLOAD_BYTES
        &&& forall|i: int| 0 <= i < self.files.len() ==> (#[trigger] self.files[i]).1 == self.bucket
    }
}

/// The reply that ends an upload: the stored files, or that there were none.
pub open spec fn upload_result(files: Seq<(Seq<char>, Seq<char>)>) -> ReplyView {
    if files.len() > 0 {
        ReplyView {
            status: STATUS_OK,
            body: BodyView::Uploaded {
                message: "File(s) uploaded and processed successfully."@,
                files,
            },
        }
    } else {
        error_reply(STATUS_BAD_REQUEST, "No files were uploaded."@)
    }
}

impl UploadSession {
    /// Starts an upload into an accepted target, with no file stored yet.
    pub fn new(target: UploadTarget) -> (s: UploadSession)
        ensures
            s@.bucket == target.bucket@,
            s@.data_path == target.data_path@,
            s@.files.len() == 0,
            s@.received == 0,
            s@.well_formed(),
    {
        UploadSession {
            bucket: target.bucket,
            data_path: target.data_path,
            files: Vec::new(),
            received: 0,
        }
    }

    /// Starts the next file of the upload, sent under `filename` (if any):
    /// names it after a fresh UUID, keeping the sent extension, and places it
    /// in the bucket's directory.
    pub fn start_file(&mut self, filename: Option<&str>) -> (f: NewFile)
        requires
            old(self)@.well_formed(),
        ensures
            final(self)@ == (UploadSessionView { received: 0, ..old(self)@ }),
            final(self)@.well_formed(),
            exists|id: Seq<char>|
                is_v4_uuid_text(id) && f.name@ == id + "."@ + kept_extension(
                    match filename {
                        Some(n) => Some(n@),
                        None => None,
                    },
                ),
            f.path@ == joined(old(self)@.data_path, f.name@),
            no_separator(f.name@),
    {
        let sent = match filename {
            Some(n) => String::from_str(n),
            None => String::from_str("unnamed"),
        };
        let ext = match extension_of(sent.as_str()) {
            Some(e) => e,
            None => String::new(),
        };
        let id = new_uuid_text();
        let mut name = id.clone();
        name.append(".");
        name.append(ext.as_str());
        assert(name@ == id@ + "."@ + ext@);
        proof {
            reveal_strlit(".");
            assert forall|i: int| 0 <= i < name@.len() implies #[trigger] name@[i] != '/' by {
                if i < 36 {
                    assert(name@[i] == id@[i]);
                } else if i > 36 {
                    assert(name@[i] == ext@[i - 37]);
                }
            }
        }
        let path = join_path(self.data_path.as_str(), name.as_str());
        self.received = 0;
        NewFile { name, path }
    }

    /// Takes a received chunk of `len` bytes of the current file. Refused,
    /// with the too-large reply, when the file would exceed `MAX_UPLOAD_BYTES`.
    pub fn accept_chunk(&mut self, len: usize) -> (res: Result<(), Reply>)
        requires
            old(self)@.well_formed(),
        ensures
            final(self)@.well_formed(),
            old(self)@.received + len <= MAX_UPLOAD_BYTES ==> res is Ok && final(self)@ == (
            UploadSessionView { received: (old(self)@.received + len) as nat, ..old(self)@ }),
            old(self)@.received + len > MAX_UPLOAD_BYTES ==> (match res {
                Err(r) => r@ == too_large(),
                Ok(_) => false,
            }) && final(self)@ == old(self)@,
    {
        if len > MAX_UPLOAD_BYTES - self.received {
            return Err(Reply::error(STATUS_PAYLOAD_TOO_LARGE, "File size exceeds the 1GB limit."));
        }
        self.received = self.received + len;
        assert(self@.files == old(self)@.files);
        Ok(())
    }

    /// Ends the current file `name` once it has been processed: a processed
    /// file is listed with the bucket; a failure ends the upload with its reply.
    pub fn finish_file(&mut self, name: String, processed: Result<(), ProcessFailure>) -> (res: Option<Reply>)
        requires
            old(self)@.well_formed(),
        ensures
            final(self)@.well_formed(),
            match processed {
                Ok(_) => res is None && final(self)@ == (UploadSessionView {
                    files: old(self)@.files.push((name@, old(self)@.bucket)),
                    ..old(self)@
                }),
                Err(f) => final(self)@ == old(self)@ && match res {
                    Some(r) => r@ == error_reply(STATUS_BAD_REQUEST, process_failure_text(f)),
                    None => false,
                },
            },
    {
        match processed {
            Ok(_) => {
                let ghost before = self.files@;
                let bucket = self.bucket.clone();
                self.files.push(StoredFile { name, bucket });
                proof {
                    assert(stored_files_view(self.files@) =~= stored_files_view(before).push(
                        (self.files@[before.len() as int].name@, self.bucket@),
                    ));
                }
                None
            },
            Err(f) => {
                let r = match f {
                    ProcessFailure::Open => Reply::error(
                        STATUS_BAD_REQUEST,
                        "Failed to open or recognize image file.",
                    ),
                    ProcessFailure::Save => Reply::error(
                        STATUS_BAD_REQUEST,
                        "Failed to save processed image.",
                    ),
                };
                Some(r)
            },
        }
    }

    /// Ends the upload once the payload has no more files.
    pub fn finish(self) -> (r: Reply)
        ensures
            r@ == upload_result(self@.files),
    {
        if self.files.len() > 0 {
            Reply {
                status: STATUS_OK,
                body: ReplyBody::Uploaded {
                    message: String::from_str("File(s) uploaded and processed successfully."),
                    files: self.files,
                },
            }
        } else {
            Reply::error(STATUS_BAD_REQUEST, "No files were uploaded.")
        }
    }
}

/// The size an uploaded image is resized to: only when resizing is allowed
/// and both a width and a height were given.
pub open spec fn resize_target(allow_resizing: bool, width: Option<u32>, height: Option<u32>) -> Option<(u32, u32)> {
    if allow_resizing && width is Some && height is Some {
        Some((width->0, height->0))
    } else {
        None
    }
}

/// The width and height in pixels that a decoded image reports.
pub uninterp spec fn image_size(img: DynamicImage) -> (u32, u32);

/// What resizing an image to exactly `width` by `height` pixels with the
/// nearest-neighbour filter gives. It depends on its arguments alone.
pub uninterp spec fn resized(img: DynamicImage, width: u32, height: u32) -> DynamicImage;

/// A decoded image together with its size in pixels, as the image reports it.
pub struct Picture {
    image: DynamicImage,
    width: u32,
    height: u32,
}

pub struct PictureView {
    pub image: DynamicImage,
    pub width: u32,
    pub height: u32,
}

impl PictureView {
    /// The recorded size is the size the image reports.
    pub open spec fn well_formed(self) -> bool {
        image_size(self.image) == (self.width, self.height)
    }
}

impl View for Picture {
    type V = PictureView;

    closed spec fn view(&self) -> PictureView {
        PictureView { image: self.image, width: self.width, height: self.height }
    }
}

/// `GenericImageView::dimensions`: the image's width and height in pixels.
#[verifier::external_body]
fn image_dimensions(img: &DynamicImage) -> (size: (u32, u32))
    ensures
        size == image_size(*img),
{
    img.dimensions()
}

impl Picture {
    /// Takes a decoded image and reads its size.
    pub fn new(image: DynamicImage) -> (p: Picture)
        ensures
            p@.image == image,
            p@.well_formed(),
    {
        let (width, height) = image_dimensions(&image);
        Picture { image, width, height }
    }

    /// The width in pixels.
    pub fn width(&self) -> (w: u32)
        ensures
            w == self@.width,
    {
        self.width
    }

    /// The height in pixels.
    pub fn height(&self) -> (h: u32)
        ensures
            h == self@.height,
    {
        self.height
    }

    /// The decoded image.
    pub fn image(&self) -> (img: &DynamicImage)
        ensures
            *img == self@.image,
    {
        &self.image
    }

    /// Gives the decoded image back.
    pub fn into_image(self) -> (img: DynamicImage)
        ensures
            img == self@.image,
    {
        self.image
    }
}

/// `DynamicImage::resize_exact` with the nearest-neighbour filter, and the
/// size of the new image as `GenericImageView::dimensions` reads it: exactly
/// `width` by `height` pixels (`imageops::resize` builds its output as
/// `width` by `height`, or copies the image when that is its size already).
/// `ImageBuffer::new` panics when the sample count overflows `usize`. The
/// resize builds an intermediate four-sample buffer of the source image's
/// width by `height`, then the result of `width` by `height` with at most
/// four samples a pixel (or a copy of that size), so `requires` keeps both
/// `4 * source width * height` and `4 * width * height` within `usize`.
#[verifier::external_body]
fn resize_exact(img: &DynamicImage, width: u32, height: u32) -> (res: Picture)
    requires
        4 * (width as int) * (height as int) <= usize::MAX,
        4 * (image_size(*img).0 as int) * (height as int) <= usize::MAX,
    ensures
        res@ == (PictureView { image: resized(*img, width, height), width, height }),
        res@.well_formed(),
{
    let image = img.resize_exact(width, height, FilterType::Nearest);
    let (w, h) = image.dimensions();
    Picture { image, width: w, height: h }
}

/// What processing a decoded upload gives: the picture resized to the
/// requested size when resizing applies, otherwise the picture as it is.
pub open spec fn processed(pic: PictureView, allow_resizing: bool, width: Option<u32>, height: Option<u32>) -> PictureView {
    match resize_target(allow_resizing, width, height) {
        Some((w, h)) => PictureView { image: resized(pic.image, w, h), width: w, height: h },
        None => pic,
    }
}

/// Processes a decoded upload: resized to exactly the given width and height
/// when resizing is allowed and both were given, otherwise left as it is.
pub fn process_image(pic: Picture, allow_resizing: bool, width: Option<u32>, height: Option<u32>) -> (res: Picture)
    requires
        resize_target(allow_resizing, width, height) matches Some((w, h)) ==> 4 * (w as int) * (
        h as int) <= usize::MAX && 4 * (image_size(pic@.image).0 as int) * (h as int)
            <= usize::MAX,
    ensures
        res@ == processed(pic@, allow_resizing, width, height),
        pic@.well_formed() ==> res@.well_formed(),
{
    if allow_resizing {
        match (width, height) {
            (Some(w), Some(h)) => {
                return resize_exact(&pic.image, w, h);
            },
            _ => {},
        }
    }
    pic
}

} // verus!
