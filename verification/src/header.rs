//! Request header values: their text form and the numbers they carry.

use vstd::prelude::*;

verus! {

/// A byte that an HTTP header value may show as text: visible ASCII or a tab.
pub open spec fn visible_ascii(b: u8) -> bool {
    (32 <= b && b < 127) || b == 9
}

/// The characters of ASCII bytes, one per byte.
pub open spec fn ascii_chars(bytes: Seq<u8>) -> Seq<char> {
    bytes.map_values(|b: u8| b as char)
}

/// A header value read as text: defined only when every byte is visible ASCII.
pub open spec fn header_text_of(bytes: Seq<u8>) -> Option<Seq<char>> {
    if forall|i: int| 0 <= i < bytes.len() ==> visible_ascii(#[trigger] bytes[i]) {
        Some(ascii_chars(bytes))
    } else {
        None
    }
}

/// A header's text, or the empty text when the header is missing or not text.
pub open spec fn header_text_or_empty(header: Option<Seq<u8>>) -> Seq<char> {
    match header {
        Some(bytes) => match header_text_of(bytes) {
            Some(t) => t,
            None => Seq::empty(),
        },
        None => Seq::empty(),
    }
}

/// `String::from_utf8_lossy`, applied to bytes that are all ASCII.
/// ASCII bytes are valid UTF-8, so each byte becomes the character with the
/// same code and nothing is replaced.
#[verifier::external_body]
fn ascii_to_string(bytes: &[u8]) -> (s: String)
    requires
        forall|i: int| 0 <= i < bytes@.len() ==> #[trigger] bytes@[i] < 128,
    ensures
        s@ == ascii_chars(bytes@),
{
    String::from_utf8_lossy(bytes).into_owned()
}

/// The text of a header value, or `None` when a byte is not visible ASCII.
pub fn header_text(bytes: &[u8]) -> (res: Option<String>)
    ensures
        match res {
            Some(s) => header_text_of(bytes@) == Some(s@),
            None => header_text_of(bytes@) is None,
        },
{
    let n = bytes.len();
    let mut i: usize = 0;
    while i < n
        invariant
            n == bytes@.len(),
            i <= n,
            forall|j: int| 0 <= j < i ==> visible_ascii(#[trigger] bytes@[j]),
        decreases n - i,
    {
        let b = bytes[i];
        if !((32 <= b && b < 127) || b == 9) {
            assert(!visible_ascii(bytes@[i as int]));
            return None;
        }
        i = i + 1;
    }
    Some(ascii_to_string(bytes))
}

/// The text of an optional header, empty when it is missing or not text.
pub fn header_or_empty(header: Option<&[u8]>) -> (res: String)
    ensures
        res@ == header_text_or_empty(
            match header {
                Some(b) => Some(b@),
                None => None,
            },
        ),
{
    match header {
        Some(bytes) => match header_text(bytes) {
            Some(s) => s,
            None => String::new(),
        },
        None => String::new(),
    }
}

/// An ASCII decimal digit.
pub open spec fn is_digit(b: u8) -> bool {
    48 <= b && b <= 57
}

/// Every byte is a decimal digit.
pub open spec fn all_digits(s: Seq<u8>) -> bool {
    forall|i: int| 0 <= i < s.len() ==> is_digit(#[trigger] s[i])
}

/// The number that a run of decimal digits denotes.
pub open spec fn digits_value(s: Seq<u8>) -> int
    decreases s.len(),
{
    if s.len() == 0 {
        0
    } else {
        digits_value(s.drop_last()) * 10 + (s.last() - 48)
    }
}

/// What `str::parse::<u32>` accepts: an optional `+`, then at least one
/// decimal digit, denoting a value that fits in a `u32`.
pub open spec fn u32_from_text(s: Seq<u8>) -> Option<u32> {
    let digits = if s.len() > 0 && s[0] == 43 {
        s.drop_first()
    } else {
        s
    };
    if digits.len() > 0 && all_digits(digits) && digits_value(digits) <= u32::MAX {
        Some(digits_value(digits) as u32)
    } else {
        None
    }
}

/// A width or height header as the upload reads it: its text parsed as a `u32`.
pub open spec fn dimension_of(header: Option<Seq<u8>>) -> Option<u32> {
    match header {
        Some(bytes) => if header_text_of(bytes) is Some {
            u32_from_text(bytes)
        } else {
            None
        },
        None => None,
    }
}

proof fn lemma_digits_value_grows(s: Seq<u8>, k: int)
    requires
        all_digits(s),
        0 <= k <= s.len(),
    ensures
        digits_value(s.subrange(0, k)) <= digits_value(s),
        0 <= digits_value(s),
    decreases s.len(),
{
    if s.len() > 0 {
        let p = s.drop_last();
        assert(all_digits(p)) by {
            assert forall|i: int| 0 <= i < p.len() implies is_digit(#[trigger] p[i]) by {
                assert(p[i] == s[i]);
            }
        }
        assert(is_digit(s[s.len() - 1]));
        if k == s.len() {
            assert(s.subrange(0, k) =~= s);
            lemma_digits_value_grows(p, 0);
        } else {
            assert(s.subrange(0, k) =~= p.subrange(0, k));
            lemma_digits_value_grows(p, k);
        }
    } else {
        assert(s.subrange(0, k) =~= s);
    }
}

/// Parses decimal text the way `str::parse::<u32>` does.
pub fn parse_u32(s: &[u8]) -> (res: Option<u32>)
    ensures
        res == u32_from_text(s@),
{
    let n = s.len();
    let mut i: usize = 0;
    if n > 0 && s[0] == 43 {
        i = 1;
    }
    let ghost digits = if s@.len() > 0 && s@[0] == 43 {
        s@.drop_first()
    } else {
        s@
    };
    let start = i;
    assert(digits =~= s@.subrange(start as int, n as int));
    if i == n {
        return None;
    }
    let mut acc: u64 = 0;
    while i < n
        invariant
            n == s@.len(),
            start <= i <= n,
            start < n,
            digits =~= s@.subrange(start as int, n as int),
            digits == (if s@.len() > 0 && s@[0] == 43 {
                s@.drop_first()
            } else {
                s@
            }),
            acc <= u32::MAX,
            forall|j: int| start <= j < i ==> is_digit(#[trigger] s@[j]),
            acc == digits_value(s@.subrange(start as int, i as int)),
        decreases n - i,
    {
        let b = s[i];
        if b < 48 || b > 57 {
            assert(!is_digit(digits[i - start]));
            return None;
        }
        let next: u64 = acc * 10 + ((b - 48) as u64);
        proof {
            let prefix = s@.subrange(start as int, i + 1);
            assert(prefix.drop_last() =~= s@.subrange(start as int, i as int));
            assert(prefix.last() == b);
        }
        if next > 0xffff_ffffu64 {
            proof {
                let prefix = s@.subrange(start as int, i + 1);
                if all_digits(digits) {
                    assert(prefix =~= digits.subrange(0, i + 1 - start));
                    lemma_digits_value_grows(digits, i + 1 - start);
                }
            }
            return None;
        }
        acc = next;
        i = i + 1;
    }
    proof {
        assert(digits =~= s@.subrange(start as int, i as int));
        assert(all_digits(digits)) by {
            assert forall|j: int| 0 <= j < digits.len() implies is_digit(#[trigger] digits[j]) by {
                assert(digits[j] == s@[start + j]);
            }
        }
    }
    Some(acc as u32)
}

/// Reads a width or height header: absent, non-text or non-numeric gives `None`.
pub fn parse_dimension(header: Option<&[u8]>) -> (res: Option<u32>)
    ensures
        res == dimension_of(
            match header {
                Some(b) => Some(b@),
                None => None,
            },
        ),
{
    match header {
        Some(bytes) => {
            if header_text(bytes).is_none() {
                return None;
            }
            parse_u32(bytes)
        },
        None => None,
    }
}

} // verus!
