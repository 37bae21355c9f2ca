//! The key administration endpoints: adding and removing API keys.

use vstd::prelude::*;
use crate::header::{header_text, header_or_empty, header_text_of, header_text_or_empty};
use crate::reply::{
    error_reply, message_reply, BodyView, Reply, ReplyBody, ReplyView, STATUS_BAD_REQUEST,
    STATUS_INTERNAL_SERVER_ERROR, STATUS_LOCKED, STATUS_NOT_FOUND, STATUS_OK, STATUS_UNAUTHORIZED,
};

verus! {

/// The bytes of an optional header value.
pub open spec fn header_view(header: Option<&[u8]>) -> Option<Seq<u8>> {
    match header {
        Some(b) => Some(b@),
        None => None,
    }
}

/// The reply to every administration request while administration is off.
pub open spec fn admin_disabled() -> ReplyView {
    error_reply(STATUS_LOCKED, "Admin endpoints are disabled."@)
}

/// The reply to an administration request whose admin key is wrong.
pub open spec fn admin_key_invalid() -> ReplyView {
    error_reply(STATUS_UNAUTHORIZED, "Invalid admin key."@)
}

/// How a request to add a key is decided before any key is made: the name
/// the key is for, or the reply that refuses the request.
pub open spec fn add_key_decision(
    allow_admin: bool,
    admin_key: Seq<char>,
    admin_header: Option<Seq<u8>>,
    name_header: Option<Seq<u8>>,
) -> Result<Seq<char>, ReplyView> {
    if !allow_admin {
        Err(admin_disabled())
    } else {
        match admin_header {
            None => Err(error_reply(STATUS_BAD_REQUEST, "The header 'ADMIN_KEY' is missing."@)),
            Some(bytes) => match header_text_of(bytes) {
                None => Err(error_reply(STATUS_BAD_REQUEST, "Invalid admin key format."@)),
                Some(given) => if given != admin_key {
                    Err(admin_key_invalid())
                } else {
                    match name_header {
                        None => Err(error_reply(STATUS_BAD_REQUEST, "The header 'NAME' is missing."@)),
                        Some(name_bytes) => match header_text_of(name_bytes) {
                            None => Err(error_reply(STATUS_BAD_REQUEST, "Invalid name format."@)),
                            Some(name) => Ok(name),
                        },
                    }
                },
            },
        }
    }
}

/// Decides a request to add a key, from the configuration (`allow_admin`,
/// the configured `admin_key`) and the `ADMIN_KEY` and `NAME` headers.
/// `Ok` carries the user name the new key is for.
pub fn add_key(
    allow_admin: bool,
    admin_key: &str,
    admin_header: Option<&[u8]>,
    name_header: Option<&[u8]>,
) -> (res: Result<String, Reply>)
    ensures
        match res {
            Ok(name) => add_key_decision(
                allow_admin,
                admin_key@,
                header_view(admin_header),
                header_view(name_header),
            ) == Ok::<Seq<char>, ReplyView>(name@),
            Err(r) => add_key_decision(
                allow_admin,
                admin_key@,
                header_view(admin_header),
                header_view(name_header),
            ) == Err::<Seq<char>, ReplyView>(r@),
        },
{
    if !allow_admin {
        return Err(Reply::error(STATUS_LOCKED, "Admin endpoints are disabled."));
    }
    let given = match admin_header {
        None => {
            return Err(Reply::error(STATUS_BAD_REQUEST, "The header 'ADMIN_KEY' is missing."));
        },
        Some(bytes) => match header_text(bytes) {
            None => {
                return Err(Reply::error(STATUS_BAD_REQUEST, "Invalid admin key format."));
            },
            Some(text) => text,
        },
    };
    if String::from_str(admin_key) != given {
        return Err(Reply::error(STATUS_UNAUTHORIZED, "Invalid admin key."));
    }
    match name_header {
        None => Err(Reply::error(STATUS_BAD_REQUEST, "The header 'NAME' is missing.")),
        Some(bytes) => match header_text(bytes) {
            None => Err(Reply::error(STATUS_BAD_REQUEST, "Invalid name format.")),
            Some(name) => Ok(name),
        },
    }
}

/// The reply once the new key's record was stored (`Ok`) or the store failed
/// with the given error text.
pub fn key_added_reply(stored: Result<(), String>, key: &str, username: &str) -> (r: Reply)
    ensures
        match stored {
            Ok(_) => r@ == (ReplyView {
                status: STATUS_OK,
                body: BodyView::KeyAdded {
                    message: "Key added"@,
                    key: key@,
                    username: username@,
                },
            }),
            Err(e) => r@ == error_reply(STATUS_INTERNAL_SERVER_ERROR, e@),
        },
{
    match stored {
        Ok(_) => Reply {
            status: STATUS_OK,
            body: ReplyBody::KeyAdded {
                message: String::from_str("Key added"),
                key: String::from_str(key),
                username: String::from_str(username),
            },
        },
        Err(e) => Reply::error_text(STATUS_INTERNAL_SERVER_ERROR, e),
    }
}

/// How a request to remove a key is decided before the store is asked: the
/// key to remove, or the reply that refuses the request. The `ADMIN_KEY`
/// header is needed: missing or not text, it is refused like a wrong key. A
/// missing or non-text `KEY_TO_REMOVE` header counts as empty text.
pub open spec fn remove_key_decision(
    allow_admin: bool,
    admin_key: Seq<char>,
    admin_header: Option<Seq<u8>>,
    key_header: Option<Seq<u8>>,
) -> Result<Seq<char>, ReplyView> {
    if !allow_admin {
        Err(admin_disabled())
    } else if !(match admin_header {
        Some(bytes) => header_text_of(bytes) == Some(admin_key),
        None => false,
    }) {
        Err(admin_key_invalid())
    } else if header_text_or_empty(key_header).len() == 0 {
        Err(error_reply(STATUS_BAD_REQUEST, "The header 'KEY_TO_REMOVE' is missing or invalid."@))
    } else {
        Ok(header_text_or_empty(key_header))
    }
}

/// Decides a request to remove a key, from the configuration and the
/// `ADMIN_KEY` and `KEY_TO_REMOVE` headers. `Ok` carries the key to remove.
pub fn remove_key(
    allow_admin: bool,
    admin_key: &str,
    admin_header: Option<&[u8]>,
    key_header: Option<&[u8]>,
) -> (res: Result<String, Reply>)
    ensures
        match res {
            Ok(k) => remove_key_decision(
                allow_admin,
                admin_key@,
                header_view(admin_header),
                header_view(key_header),
            ) == Ok::<Seq<char>, ReplyView>(k@),
            Err(r) => remove_key_decision(
                allow_admin,
                admin_key@,
                header_view(admin_header),
                header_view(key_header),
            ) == Err::<Seq<char>, ReplyView>(r@),
        },
{
    if !allow_admin {
        return Err(Reply::error(STATUS_LOCKED, "Admin endpoints are disabled."));
    }
    let given = match admin_header {
        Some(bytes) => header_text(bytes),
        None => None,
    };
    match given {
        Some(text) => {
            if String::from_str(admin_key) != text {
                return Err(Reply::error(STATUS_UNAUTHORIZED, "Invalid admin key."));
            }
        },
        None => {
            return Err(Reply::error(STATUS_UNAUTHORIZED, "Invalid admin key."));
        },
    }
    let key = header_or_empty(key_header);
    if key.as_str().is_empty() {
        return Err(
            Reply::error(STATUS_BAD_REQUEST, "The header 'KEY_TO_REMOVE' is missing or invalid."),
        );
    }
    Ok(key)
}

/// The reply once the store was asked to delete a key: `Ok` with the number
/// of records it deleted, or the store's error text.
pub fn key_removed_reply(outcome: Result<u64, String>) -> (r: Reply)
    ensures
        match outcome {
            Ok(n) => if n > 0 {
                r@ == message_reply(STATUS_OK, "Key removed successfully."@)
            } else {
                r@ == error_reply(STATUS_NOT_FOUND, "Key not found."@)
            },
            Err(e) => r@ == error_reply(STATUS_INTERNAL_SERVER_ERROR, e@),
        },
{
    match outcome {
        Ok(n) => if n > 0 {
            Reply::message(STATUS_OK, "Key removed successfully.")
        } else {
            Reply::error(STATUS_NOT_FOUND, "Key not found.")
        },
        Err(e) => Reply::error_text(STATUS_INTERNAL_SERVER_ERROR, e),
    }
}

} // verus!
