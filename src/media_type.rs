use vstd::prelude::*;

verus! {

#[verifier::external_type_specification]
#[verifier::external_body]
pub struct ExMime(mime::Mime);

/// Whether the `mime` crate accepts a text as a media type.
pub uninterp spec fn is_media_type(s: Seq<char>) -> bool;

/// Relies on `<mime::Mime as FromStr>::from_str`: it succeeds exactly on the
/// texts that it accepts as a media type.
#[verifier::external_body]
fn parse_media_type(s: &str) -> (r: Option<mime::Mime>)
    ensures
        r is Some <==> is_media_type(s@),
{
    s.parse::<mime::Mime>().ok()
}

/// A header byte that may stand in a header value read as text: a visible
/// ASCII character, a space or a tab.
pub open spec fn visible_byte(b: u8) -> bool {
    (32 <= b && b < 127) || b == 9
}

pub open spec fn all_visible(b: Seq<u8>) -> bool {
    forall|i: int| 0 <= i < b.len() ==> visible_byte(#[trigger] b[i])
}

/// The characters of a sequence of ASCII bytes.
pub open spec fn ascii_chars(b: Seq<u8>) -> Seq<char> {
    b.map_values(|x: u8| x as char)
}

pub open spec fn all_ascii(b: Seq<u8>) -> bool {
    forall|i: int| 0 <= i < b.len() ==> #[trigger] b[i] < 128
}

/// Relies on `std::str::from_utf8`: ASCII bytes are valid UTF-8, each byte
/// one character of the same code.
#[verifier::external_body]
fn utf8_text(b: &[u8]) -> (r: Option<String>)
    ensures
        all_ascii(b@) ==> (r is Some && r.unwrap()@ == ascii_chars(b@)),
{
    std::str::from_utf8(b).ok().map(|s| s.to_string())
}

/// Whether every byte of a header value is one that may be read as text.
pub fn is_visible_ascii(b: &[u8]) -> (r: bool)
    ensures
        r == all_visible(b@),
{
    let mut i: usize = 0;
    while i < b.len()
        invariant
            0 <= i <= b@.len(),
            all_visible(b@.subrange(0, i as int)),
        decreases b@.len() - i,
    {
        if !((32 <= b[i] && b[i] < 127) || b[i] == 9) {
            assert(!visible_byte(b@[i as int]));
            return false;
        }
        assert(b@.subrange(0, i as int + 1) =~= b@.subrange(0, i as int).push(b@[i as int]));
        i = i + 1;
    }
    assert(b@.subrange(0, i as int) =~= b@);
    true
}

/// The text of a header value, where all of its bytes may be read as text.
pub fn header_text(b: &[u8]) -> (r: Option<String>)
    ensures
        r is Some <==> all_visible(b@),
        r is Some ==> r.unwrap()@ == ascii_chars(b@),
{
    if is_visible_ascii(b) {
        assert(all_ascii(b@)) by {
            assert forall|i: int| 0 <= i < b@.len() implies #[trigger] b@[i] < 128 by {
                assert(visible_byte(b@[i]));
            }
        }
        utf8_text(b)
    } else {
        None
    }
}

/// Whether a content-type header is present, readable as text, and a media
/// type.
pub open spec fn header_is_media_type(h: Option<Vec<u8>>) -> bool {
    match h {
        Some(b) => all_visible(b@) && is_media_type(ascii_chars(b@)),
        None => false,
    }
}

/// The media type that a response's content-type header declares, if the
/// header is present, readable as text and parses.
pub fn media_type_of(h: &Option<Vec<u8>>) -> (r: Option<mime::Mime>)
    ensures
        r is Some <==> header_is_media_type(*h),
{
    match h {
        None => None,
        Some(b) => match header_text(b.as_slice()) {
            None => None,
            Some(t) => parse_media_type(t.as_str()),
        },
    }
}

} // verus!
