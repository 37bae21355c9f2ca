//! HTTP replies as plain values: a status code and a JSON-shaped body.

use vstd::prelude::*;

verus! {

pub const STATUS_OK: u16 = 200;
pub const STATUS_BAD_REQUEST: u16 = 400;
pub const STATUS_UNAUTHORIZED: u16 = 401;
pub const STATUS_NOT_FOUND: u16 = 404;
pub const STATUS_PAYLOAD_TOO_LARGE: u16 = 413;
pub const STATUS_LOCKED: u16 = 423;
pub const STATUS_INTERNAL_SERVER_ERROR: u16 = 500;

/// A stored upload as the reply lists it: the file's new name and its bucket.
#[derive(Debug)]
pub struct StoredFile {
    pub name: String,
    pub bucket: String,
}

/// The body of a reply.
#[derive(Debug)]
pub enum ReplyBody {
    /// `{"error": text}`
    Error(String),
    /// `{"message": text}`
    Message(String),
    /// `{"message": message, "key": key, "username": username}`
    KeyAdded { message: String, key: String, username: String },
    /// `{"message": message, "files": [[name, bucket], ...]}`
    Uploaded { message: String, files: Vec<StoredFile> },
    /// Raw WebP image bytes, sent with the content type `image/webp`.
    Webp(Vec<u8>),
}

/// A reply: status code and body.
#[derive(Debug)]
pub struct Reply {
    pub status: u16,
    pub body: ReplyBody,
}

pub enum BodyView {
    Error(Seq<char>),
    Message(Seq<char>),
    KeyAdded { message: Seq<char>, key: Seq<char>, username: Seq<char> },
    Uploaded { message: Seq<char>, files: Seq<(Seq<char>, Seq<char>)> },
    Webp(Seq<u8>),
}

pub struct ReplyView {
    pub status: u16,
    pub body: BodyView,
}

/// The (name, bucket) pairs of stored files.
pub open spec fn stored_files_view(files: Seq<StoredFile>) -> Seq<(Seq<char>, Seq<char>)> {
    files.map_values(|f: StoredFile| (f.name@, f.bucket@))
}

impl View for ReplyBody {
    type V = BodyView;

    open spec fn view(&self) -> BodyView {
        match self {
            ReplyBody::Error(t) => BodyView::Error(t@),
            ReplyBody::Message(t) => BodyView::Message(t@),
            ReplyBody::KeyAdded { message, key, username } => BodyView::KeyAdded {
                message: message@,
                key: key@,
                username: username@,
            },
            ReplyBody::Uploaded { message, files } => BodyView::Uploaded {
                message: message@,
                files: stored_files_view(files@),
            },
            ReplyBody::Webp(bytes) => BodyView::Webp(bytes@),
        }
    }
}

impl View for Reply {
    type V = ReplyView;

    open spec fn view(&self) -> ReplyView {
        ReplyView { status: self.status, body: self.body@ }
    }
}

/// An error reply: `status` with `{"error": message}`.
pub open spec fn error_reply(status: u16, message: Seq<char>) -> ReplyView {
    ReplyView { status, body: BodyView::Error(message) }
}

/// A message reply: `status` with `{"message": message}`.
pub open spec fn message_reply(status: u16, message: Seq<char>) -> ReplyView {
    ReplyView { status, body: BodyView::Message(message) }
}

impl Reply {
    /// An error reply with the given status and text.
    pub fn error(status: u16, message: &str) -> (r: Reply)
        ensures
            r@ == error_reply(status, message@),
    {
        Reply { status, body: ReplyBody::Error(String::from_str(message)) }
    }

    /// An error reply whose text is already owned.
    pub fn error_text(status: u16, message: String) -> (r: Reply)
        ensures
            r@ == error_reply(status, message@),
    {
        Reply { status, body: ReplyBody::Error(message) }
    }

    /// A message reply with the given status and text.
    pub fn message(status: u16, message: &str) -> (r: Reply)
        ensures
            r@ == message_reply(status, message@),
    {
        Reply { status, body: ReplyBody::Message(String::from_str(message)) }
    }
}

} // verus!
