//! The Notion page that a request is for: its id, taken from the end of the
//! path or from the home route's settings, and read as a UUID by `uuid`.

use vstd::prelude::*;
use vstd::string::StringSliceAdditionalSpecFns;
use vstd::utf8::{
    decode_utf8, encode_utf8, encode_utf8_decode_utf8, encode_utf8_valid_utf8, is_ascii_chars,
    is_ascii_chars_encode_utf8, is_char_boundary, is_char_boundary_iff_not_is_continuation_byte,
};
use crate::scripts::{setting, value_or};
use crate::strmap::{Entries, StrMap};
use crate::text::owned;

verus! {

/// The value of a hexadecimal digit byte, either case.
pub open spec fn hex_digit(b: u8) -> Option<int> {
    if 0x30 <= b && b <= 0x39 {
        Some(b - 0x30)
    } else if 0x61 <= b && b <= 0x66 {
        Some(b - 0x61 + 10)
    } else if 0x41 <= b && b <= 0x46 {
        Some(b - 0x41 + 10)
    } else {
        None
    }
}

/// The number that the hexadecimal digit bytes `s` spell, most significant
/// first; `None` where one of them is not a hexadecimal digit.
pub open spec fn hex_value(s: Seq<u8>) -> Option<int>
    decreases s.len(),
{
    if s.len() == 0 {
        Some(0)
    } else {
        match (hex_value(s.drop_last()), hex_digit(s.last())) {
            (Some(a), Some(d)) => Some(a * 16 + d),
            _ => None,
        }
    }
}

/// The value of a hyphenated UUID (`8-4-4-4-12` hexadecimal digits): 36 bytes
/// with `-` at 8, 13, 18 and 23 and hexadecimal digits elsewhere.
pub open spec fn hyphenated_value(s: Seq<u8>) -> Option<int> {
    if s.len() == 36 && s[8] == 0x2d && s[13] == 0x2d && s[18] == 0x2d && s[23] == 0x2d {
        hex_value(
            s.subrange(0, 8) + s.subrange(9, 13) + s.subrange(14, 18) + s.subrange(19, 23)
                + s.subrange(24, 36),
        )
    } else {
        None
    }
}

/// An ASCII letter's lower case; any other byte as it is.
pub open spec fn ascii_lower(b: u8) -> u8 {
    if 0x41 <= b && b <= 0x5a {
        (b + 0x20) as u8
    } else {
        b
    }
}

/// The first nine bytes of `s` are `urn:uuid:`, in either case.
pub open spec fn has_urn_prefix(s: Seq<u8>) -> bool {
    let urn: Seq<u8> = seq![0x75u8, 0x72, 0x6e, 0x3a, 0x75, 0x75, 0x69, 0x64, 0x3a];
    s.len() >= 9 && forall|i: int| 0 <= i < 9 ==> ascii_lower(#[trigger] s[i]) == urn[i]
}

/// The value of the UUID written in the UTF-8 bytes `b`: 32 hexadecimal digits;
/// or a hyphenated UUID, alone, in braces, or after `urn:uuid:`; `None` for
/// anything else.
pub open spec fn uuid_text_value(b: Seq<u8>) -> Option<u128> {
    let v = if b.len() == 32 {
        hex_value(b)
    } else if b.len() == 36 {
        hyphenated_value(b)
    } else if b.len() == 38 && b[0] == 0x7b && b[37] == 0x7d {
        hyphenated_value(b.subrange(1, 37))
    } else if b.len() == 45 && has_urn_prefix(b) {
        hyphenated_value(b.subrange(9, 45))
    } else {
        None
    };
    match v {
        Some(n) => Some(n as u128),
        None => None,
    }
}

/// Reads `text` with `uuid::Uuid::parse_str` and gives the UUID as a number
/// (`Uuid::as_u128`, the 16 bytes read most significant first). Trusted: the
/// result is `uuid_text_value` of the text's UTF-8 bytes, the four forms that
/// `parse_str` accepts.
#[verifier::external_body]
fn parse_uuid(text: &str) -> (r: Option<u128>)
    ensures
        r == uuid_text_value(encode_utf8(text@)),
{
    Some(uuid::Uuid::parse_str(text).ok()?.as_u128())
}

/// The page id of a request: the last 32 bytes of a path longer than 32 bytes,
/// else the page that the home route `/` names (empty where it names none).
pub open spec fn page_id_text(path: Seq<char>, page_map: Entries) -> Seq<char> {
    let b = encode_utf8(path);
    if b.len() > 32 {
        decode_utf8(b.subrange(b.len() - 32, b.len() as int))
    } else {
        value_or(page_map, "/"@, Seq::empty())
    }
}

/// The path's UTF-8 length fits a `usize`, and the path can be cut 32 bytes
/// before its end where it is longer than that.
pub open spec fn id_cut_ok(path: Seq<char>) -> bool {
    let b = encode_utf8(path);
    &&& b.len() <= usize::MAX
    &&& b.len() > 32 ==> is_char_boundary(b, b.len() - 32)
}

/// The id of the Notion page that the request path is for.
pub fn page_id_for_path(path: &str, page_map: &StrMap) -> (r: String)
    requires
        id_cut_ok(path@),
    ensures
        r@ == page_id_text(path@, page_map@),
{
    let n = path.len();
    assert(path.spec_bytes() == encode_utf8(path@));
    if n > 32 {
        let (_, tail) = path.split_at(n - 32);
        proof {
            encode_utf8_decode_utf8(tail@);
        }
        owned(tail)
    } else {
        proof {
            reveal_strlit("");
        }
        owned(setting(page_map, "/", ""))
    }
}

/// The UUID of the Notion page that the request path is for, where its id reads
/// as one: an id of 32 hexadecimal digits gives the number they spell, and an
/// id of another length that is no hyphenated, braced or URN UUID gives `None`.
pub fn page_uuid(path: &str, page_map: &StrMap) -> (r: Option<u128>)
    requires
        id_cut_ok(path@),
    ensures
        r == uuid_text_value(encode_utf8(page_id_text(path@, page_map@))),
{
    let id = page_id_for_path(path, page_map);
    parse_uuid(id.as_str())
}

/// An ASCII path (every path of a URL is one) longer than 32 characters names
/// the page whose id is its last 32 characters, and can be cut there.
pub proof fn law_ascii_page_id(path: Seq<char>, page_map: Entries)
    requires
        is_ascii_chars(path),
        path.len() > 32,
    ensures
        encode_utf8(path).len() <= usize::MAX ==> id_cut_ok(path),
        page_id_text(path, page_map) == path.subrange(path.len() - 32, path.len() as int),
{
    let n = path.len() as int;
    let b = encode_utf8(path);
    let t = path.subrange(n - 32, n);
    is_ascii_chars_encode_utf8(path);
    assert(is_ascii_chars(t)) by {
        assert forall|i: int| 0 <= i < t.len() implies '\0' <= #[trigger] t[i] <= '\u{7f}' by {
            assert(t[i] == path[n - 32 + i]);
        }
    }
    is_ascii_chars_encode_utf8(t);
    assert(encode_utf8(t) =~= b.subrange(n - 32, n)) by {
        assert forall|i: int| 0 <= i < 32 implies encode_utf8(t)[i] == b.subrange(n - 32, n)[i] by {
            assert(t[i] == path[n - 32 + i]);
            assert(t[i] as u8 == encode_utf8(t)[i]);
            assert(path[n - 32 + i] as u8 == b[n - 32 + i]);
        }
    }
    encode_utf8_decode_utf8(t);
    encode_utf8_valid_utf8(path);
    is_char_boundary_iff_not_is_continuation_byte(b, n - 32);
    assert(path[n - 32] as u8 == b[n - 32]);
    assert((path[n - 32] as u8) < 0x80) by {
        assert('\0' <= path[n - 32] <= '\u{7f}');
    }
}

} // verus!
