//! Properties that span the library's decisions.

use vstd::prelude::*;
use crate::admin::{add_key_decision, admin_disabled, remove_key_decision};
use crate::header::{
    all_digits, ascii_chars, digits_value, header_text_of, header_text_or_empty, is_digit,
    u32_from_text, visible_ascii,
};
use crate::text::{digit_char, nat_text};
use crate::keys::{key_accepted, key_in_use, LookupOutcome};
use crate::serve::{first_existing, has_image_extension, lowercase_text, sends_as_stored};
use crate::setup::count_false;
use crate::text::{joined, no_separator};
use crate::upload::{
    bucket_dir, kept_extension, path_extension, processed, resize_target, resized, sent_name,
    upload_result, PictureView, UploadSessionView,
};

verus! {

/// While administration is switched off, every request to add or to remove a
/// key is answered that the admin endpoints are disabled, whatever its
/// headers and whatever the configured admin key.
pub proof fn admin_off_refuses_everything(
    admin_key: Seq<char>,
    admin_header: Option<Seq<u8>>,
    other_header: Option<Seq<u8>>,
)
    ensures
        add_key_decision(false, admin_key, admin_header, other_header) == Err::<
            Seq<char>,
            crate::reply::ReplyView,
        >(admin_disabled()),
        remove_key_decision(false, admin_key, admin_header, other_header) == Err::<
            Seq<char>,
            crate::reply::ReplyView,
        >(admin_disabled()),
{
}

/// A key is only ever added for a request that carries, as text, exactly the
/// configured admin key, while administration is on; the key is issued to the
/// text of the `NAME` header.
pub proof fn adding_needs_the_admin_key(
    allow_admin: bool,
    admin_key: Seq<char>,
    admin_header: Option<Seq<u8>>,
    name_header: Option<Seq<u8>>,
    name: Seq<char>,
)
    requires
        add_key_decision(allow_admin, admin_key, admin_header, name_header) == Ok::<
            Seq<char>,
            crate::reply::ReplyView,
        >(name),
    ensures
        allow_admin,
        admin_header is Some,
        header_text_of(admin_header->0) == Some(admin_key),
        name_header is Some,
        header_text_of(name_header->0) == Some(name),
{
}

/// A key is only ever removed for a request that carries, as text, exactly
/// the configured admin key, while administration is on, and the key to
/// remove is never empty.
pub proof fn removing_needs_the_admin_key(
    allow_admin: bool,
    admin_key: Seq<char>,
    admin_header: Option<Seq<u8>>,
    key_header: Option<Seq<u8>>,
    key: Seq<char>,
)
    requires
        remove_key_decision(allow_admin, admin_key, admin_header, key_header) == Ok::<
            Seq<char>,
            crate::reply::ReplyView,
        >(key),
    ensures
        allow_admin,
        admin_header is Some,
        header_text_of(admin_header->0) == Some(admin_key),
        key == header_text_or_empty(key_header),
        key.len() > 0,
{
}

/// The two readings of one store lookup never conflict: an answer on which a
/// request's key is accepted is always one on which key generation treats the
/// key as taken, and an answer on which generation may keep a key never
/// accepts it.
pub proof fn accepted_keys_are_taken(outcome: LookupOutcome)
    ensures
        key_accepted(outcome) ==> key_in_use(outcome),
        !key_in_use(outcome) ==> !key_accepted(outcome),
{
}

/// An upload is answered with success exactly when at least one file was
/// stored, and then it lists every stored file, each in the session's bucket.
pub proof fn upload_succeeds_with_stored_files(session: UploadSessionView)
    requires
        session.well_formed(),
    ensures
        (upload_result(session.files).status == crate::reply::STATUS_OK) == (session.files.len()
            > 0),
        session.files.len() > 0 ==> upload_result(session.files).body == (crate::reply::BodyView::Uploaded {
            message: "File(s) uploaded and processed successfully."@,
            files: session.files,
        }),
        forall|i: int| 0 <= i < session.files.len() ==> (#[trigger] session.files[i]).1 == session.bucket,
{
}

/// A found file is converted to WebP exactly when WebP delivery is on and
/// the requested name has no image extension (`jpg`, `gif`, `png`, `webp`,
/// in any case); otherwise it is sent as stored.
pub proof fn webp_only_without_image_extension(serve_as_webp: bool, filename: Seq<char>)
    ensures
        !sends_as_stored(serve_as_webp, filename) <==> (serve_as_webp && !has_image_extension(
            filename,
        )),
{
}

/// Every file of an upload lands directly inside its bucket's directory: a
/// stored name holds no separator, so its path is the bucket directory, a
/// separator (unless the directory already ends with one), and the name.
pub proof fn stored_files_stay_in_their_bucket(parent: Seq<char>, bucket: Seq<char>, name: Seq<char>)
    requires
        no_separator(name),
    ensures
        joined(bucket_dir(parent, bucket), name) == if bucket_dir(parent, bucket).last() == '/' {
            bucket_dir(parent, bucket) + name
        } else {
            bucket_dir(parent, bucket) + seq!['/'] + name
        },
        bucket_dir(parent, bucket).is_prefix_of(joined(bucket_dir(parent, bucket), name)),
{
    reveal_strlit("./");
    let dir = bucket_dir(parent, bucket);
    assert(dir.len() >= 2);
    if name.len() > 0 {
        assert(name[0] != '/');
    }
    let path = joined(dir, name);
    assert(path.subrange(0, dir.len() as int) =~= dir);
}

/// Over a whole upload: a session started from an accepted target keeps the
/// bucket directory as its directory, and every file it starts (a name
/// without separators joined onto that directory) lies directly inside the
/// bucket directory.
pub proof fn upload_session_stays_in_its_bucket(
    parent: Seq<char>,
    bucket: Seq<char>,
    session: UploadSessionView,
    name: Seq<char>,
    path: Seq<char>,
)
    requires
        session.data_path == bucket_dir(parent, bucket),
        no_separator(name),
        path == joined(session.data_path, name),
    ensures
        bucket_dir(parent, bucket).is_prefix_of(path),
        path == if bucket_dir(parent, bucket).last() == '/' {
            bucket_dir(parent, bucket) + name
        } else {
            bucket_dir(parent, bucket) + seq!['/'] + name
        },
{
    stored_files_stay_in_their_bucket(parent, bucket, name);
}

/// Serving finds the first stored file: when `present[i]` holds and no
/// earlier candidate is present, the picked path is `candidates[i]`, however
/// many candidates there are and wherever `i` stands among them.
pub proof fn pick_takes_the_first_present_candidate(
    candidates: Seq<Seq<char>>,
    present: Seq<bool>,
    base: Seq<char>,
    i: int,
)
    requires
        candidates.len() == present.len(),
        0 <= i < candidates.len(),
        present[i],
        forall|j: int| 0 <= j < i ==> !present[j],
    ensures
        first_existing(candidates, present, base) == candidates[i],
    decreases i,
{
    if i > 0 {
        assert(!present[0]);
        let c = candidates.drop_first();
        let p = present.drop_first();
        assert forall|j: int| 0 <= j < i - 1 implies !p[j] by {
            assert(p[j] == present[j + 1]);
        }
        pick_takes_the_first_present_candidate(c, p, base, i - 1);
        assert(c[i - 1] == candidates[i]);
    }
}

/// The requested path itself is picked only when no candidate is present;
/// when none is, it is picked.
pub proof fn pick_falls_back_only_when_nothing_is_present(
    candidates: Seq<Seq<char>>,
    present: Seq<bool>,
    base: Seq<char>,
)
    requires
        candidates.len() == present.len(),
    ensures
        (forall|j: int| 0 <= j < present.len() ==> !present[j]) ==> first_existing(
            candidates,
            present,
            base,
        ) == base,
        (exists|j: int| 0 <= j < present.len() && present[j]) ==> exists|j: int|
            0 <= j < candidates.len() && first_existing(candidates, present, base)
                == candidates[j] && present[j],
    decreases candidates.len(),
{
    if candidates.len() > 0 {
        let c = candidates.drop_first();
        let p = present.drop_first();
        pick_falls_back_only_when_nothing_is_present(c, p, base);
        if forall|j: int| 0 <= j < present.len() ==> !present[j] {
            assert(!present[0]);
            assert forall|j: int| 0 <= j < p.len() implies !p[j] by {
                assert(p[j] == present[j + 1]);
            }
        }
        if exists|j: int| 0 <= j < present.len() && present[j] {
            if !present[0] {
                let j = choose|j: int| 0 <= j < present.len() && present[j];
                assert(p[j - 1] == present[j]);
                let k = choose|k: int|
                    0 <= k < c.len() && first_existing(c, p, base) == c[k] && p[k];
                assert(c[k] == candidates[k + 1] && p[k] == present[k + 1]);
            }
        }
    }
}

/// A stored file keeps the extension of the name it was sent under, whatever
/// its length: the path extension of the sent name when it has one, and
/// nothing otherwise; a file sent without a name counts as `unnamed`.
pub proof fn stored_names_keep_the_sent_extension(filename: Option<Seq<char>>)
    ensures
        filename matches Some(n) ==> sent_name(filename) == n,
        filename is None ==> sent_name(filename) == "unnamed"@,
        path_extension(sent_name(filename)) matches Some(e) ==> kept_extension(filename) == e,
        path_extension(sent_name(filename)) is None ==> kept_extension(filename).len() == 0,
{
}

/// When resizing is allowed and both a width and a height are given, the
/// processed picture is the input image resized to exactly that size,
/// whether that is larger or smaller than the image; otherwise the picture is
/// left as it is.
pub proof fn resizing_follows_the_request(
    pic: PictureView,
    allow_resizing: bool,
    width: Option<u32>,
    height: Option<u32>,
)
    ensures
        allow_resizing && width is Some && height is Some ==> processed(
            pic,
            allow_resizing,
            width,
            height,
        ) == (PictureView {
            image: resized(pic.image, width->0, height->0),
            width: width->0,
            height: height->0,
        }),
        !(allow_resizing && width is Some && height is Some) ==> processed(
            pic,
            allow_resizing,
            width,
            height,
        ) == pic,
        resize_target(allow_resizing, width, height) is Some <==> (allow_resizing && width is Some
            && height is Some),
{
}

/// With administration on and the right admin key given as text, a key is
/// issued to any `NAME` header whose bytes are all visible ASCII or tabs
/// (spaces included), to exactly the text of those bytes.
pub proof fn any_text_name_gets_a_key(admin_key: Seq<char>, admin_bytes: Seq<u8>, name_bytes: Seq<u8>)
    requires
        forall|i: int| 0 <= i < admin_bytes.len() ==> visible_ascii(#[trigger] admin_bytes[i]),
        ascii_chars(admin_bytes) == admin_key,
        forall|i: int| 0 <= i < name_bytes.len() ==> visible_ascii(#[trigger] name_bytes[i]),
    ensures
        add_key_decision(true, admin_key, Some(admin_bytes), Some(name_bytes)) == Ok::<
            Seq<char>,
            crate::reply::ReplyView,
        >(ascii_chars(name_bytes)),
{
}

/// With administration on and the right admin key given as text, any
/// non-empty `KEY_TO_REMOVE` header whose bytes are all visible ASCII or tabs,
/// of any length, is taken as the key to remove, exactly as its text.
pub proof fn any_text_key_can_be_removed(admin_key: Seq<char>, admin_bytes: Seq<u8>, key_bytes: Seq<u8>)
    requires
        forall|i: int| 0 <= i < admin_bytes.len() ==> visible_ascii(#[trigger] admin_bytes[i]),
        ascii_chars(admin_bytes) == admin_key,
        forall|i: int| 0 <= i < key_bytes.len() ==> visible_ascii(#[trigger] key_bytes[i]),
        key_bytes.len() > 0,
    ensures
        remove_key_decision(true, admin_key, Some(admin_bytes), Some(key_bytes)) == Ok::<
            Seq<char>,
            crate::reply::ReplyView,
        >(ascii_chars(key_bytes)),
{
}

/// A requested name has an explicit image file ending exactly when its lower
/// case form ends with `.jpg`, `.gif`, `.png` or `.webp`.
pub proof fn image_endings_are_the_four_extensions(filename: Seq<char>)
    ensures
        has_image_extension(filename) <==> (".jpg"@.is_suffix_of(lowercase_text(filename))
            || ".gif"@.is_suffix_of(lowercase_text(filename)) || ".png"@.is_suffix_of(
            lowercase_text(filename),
        ) || ".webp"@.is_suffix_of(lowercase_text(filename))),
{
    reveal_strlit(".jpg");
    reveal_strlit(".gif");
    reveal_strlit(".png");
    reveal_strlit(".webp");
    reveal_strlit("jpg");
    reveal_strlit("gif");
    reveal_strlit("png");
    reveal_strlit("webp");
    let exts = crate::serve::image_extensions();
    assert(seq!['.'] + exts[0] =~= ".jpg"@);
    assert(seq!['.'] + exts[1] =~= ".gif"@);
    assert(seq!['.'] + exts[2] =~= ".png"@);
    assert(seq!['.'] + exts[3] =~= ".webp"@);
    let l = lowercase_text(filename);
    if ".jpg"@.is_suffix_of(l) {
        assert((seq!['.'] + exts[0]).is_suffix_of(l));
    }
    if ".gif"@.is_suffix_of(l) {
        assert((seq!['.'] + exts[1]).is_suffix_of(l));
    }
    if ".png"@.is_suffix_of(l) {
        assert((seq!['.'] + exts[2]).is_suffix_of(l));
    }
    if ".webp"@.is_suffix_of(l) {
        assert((seq!['.'] + exts[3]).is_suffix_of(l));
    }
}

/// The count of directories to make adds up over any split of the list, and
/// a single entry counts one exactly when it is not present.
pub proof fn new_directory_count_adds_up(a: Seq<bool>, b: Seq<bool>)
    ensures
        count_false(a + b) == count_false(a) + count_false(b),
        count_false(seq![true]) == 0,
        count_false(seq![false]) == 1,
        count_false(Seq::empty()) == 0,
    decreases b.len(),
{
    assert(count_false(Seq::<bool>::empty()) == 0);
    assert(seq![true].drop_last() =~= Seq::<bool>::empty());
    assert(seq![false].drop_last() =~= Seq::<bool>::empty());
    assert(count_false(seq![true]) == count_false(seq![true].drop_last()));
    assert(count_false(seq![false]) == count_false(seq![false].drop_last()) + 1);
    if b.len() == 0 {
        assert(a + b =~= a);
    } else {
        new_directory_count_adds_up(a, b.drop_last());
        assert((a + b).drop_last() =~= a + b.drop_last());
        assert((a + b).last() == b.last());
    }
}

/// A header's text is read byte by byte: text made of two pieces is text
/// exactly when both pieces are, and reads as the two texts one after the
/// other.
pub proof fn header_text_is_read_bytewise(a: Seq<u8>, b: Seq<u8>)
    ensures
        header_text_of(a + b) is Some <==> (header_text_of(a) is Some && header_text_of(b) is Some),
        header_text_of(a) matches Some(ta) ==> (header_text_of(b) matches Some(tb)
            ==> header_text_of(a + b) == Some(ta + tb)),
{
    let ab = a + b;
    if header_text_of(a) is Some && header_text_of(b) is Some {
        assert forall|i: int| 0 <= i < ab.len() implies visible_ascii(#[trigger] ab[i]) by {
            if i < a.len() {
                assert(ab[i] == a[i]);
            } else {
                assert(ab[i] == b[i - a.len()]);
            }
        }
        assert(ascii_chars(ab) =~= ascii_chars(a) + ascii_chars(b));
    }
    if header_text_of(ab) is Some {
        assert forall|i: int| 0 <= i < a.len() implies visible_ascii(#[trigger] a[i]) by {
            assert(ab[i] == a[i]);
        }
        assert forall|i: int| 0 <= i < b.len() implies visible_ascii(#[trigger] b[i]) by {
            assert(ab[i + a.len()] == b[i]);
        }
    }
}

/// A single byte is header text exactly when it is a tab or a printable
/// ASCII character (space to `~`), and it reads as the character of that code.
pub proof fn header_text_of_one_byte(x: u8)
    ensures
        header_text_of(seq![x]) is Some <==> (x == 9 || (32 <= x && x <= 126)),
        header_text_of(seq![x]) matches Some(t) ==> t == seq![x as char],
{
    let s = seq![x];
    if x == 9 || (32 <= x && x <= 126) {
        assert forall|i: int| 0 <= i < s.len() implies visible_ascii(#[trigger] s[i]) by {
            assert(s[i] == x);
        }
        assert(ascii_chars(s) =~= seq![x as char]);
    } else {
        assert(!visible_ascii(s[0]));
    }
}

/// The bytes of the decimal text of a number.
pub open spec fn decimal_bytes(n: nat) -> Seq<u8> {
    nat_text(n).map_values(|c: char| c as u8)
}

proof fn lemma_decimal_bytes(n: nat)
    ensures
        decimal_bytes(n).len() > 0,
        all_digits(decimal_bytes(n)),
        digits_value(decimal_bytes(n)) == n,
        decimal_bytes(n)[0] != 43,
    decreases n,
{
    let d = (n % 10) as int;
    assert(digit_char(d) as u8 == 48 + d) by {
        if d == 0 {} else if d == 1 {} else if d == 2 {} else if d == 3 {} else if d == 4 {}
        else if d == 5 {} else if d == 6 {} else if d == 7 {} else if d == 8 {} else {}
    }
    if n < 10 {
        assert(decimal_bytes(n) =~= seq![(48 + n) as u8]);
        assert(decimal_bytes(n).drop_last() =~= Seq::<u8>::empty());
        assert(is_digit(decimal_bytes(n)[0]));
        assert(digits_value(Seq::<u8>::empty()) == 0);
        assert(decimal_bytes(n).last() == (48 + n) as u8);
        assert(digits_value(decimal_bytes(n)) == digits_value(decimal_bytes(n).drop_last()) * 10 + (
        decimal_bytes(n).last() - 48));
    } else {
        let q = (n / 10) as nat;
        lemma_decimal_bytes(q);
        let s = decimal_bytes(n);
        assert(s =~= decimal_bytes(q).push((48 + d) as u8));
        assert(s.drop_last() =~= decimal_bytes(q));
        assert forall|i: int| 0 <= i < s.len() implies is_digit(#[trigger] s[i]) by {
            if i < s.len() - 1 {
                assert(s[i] == decimal_bytes(q)[i]);
            }
        }
        assert(s[0] == decimal_bytes(q)[0]);
        assert(s.last() == (48 + d) as u8);
        assert(digits_value(s) == digits_value(s.drop_last()) * 10 + (s.last() - 48));
        assert(n == q * 10 + d);
    }
}

/// Reading a width or height undoes writing it: the decimal text of any
/// number that fits in a `u32` parses back to that number, with or without a
/// leading `+`.
pub proof fn dimension_text_round_trip(n: u32)
    ensures
        u32_from_text(decimal_bytes(n as nat)) == Some(n),
        u32_from_text(seq![43u8] + decimal_bytes(n as nat)) == Some(n),
{
    lemma_decimal_bytes(n as nat);
    assert((seq![43u8] + decimal_bytes(n as nat)).drop_first() =~= decimal_bytes(n as nat));
}

} // verus!
