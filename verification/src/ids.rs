//! Game identifiers and pagination cursors.
//!
//! A game is named either by its UUID or by its slug; UUIDs are carried as
//! their 128-bit value. A keyset cursor is the base64url text (no padding)
//! of the UUID's hyphenated form.

use base64::engine::general_purpose::URL_SAFE_NO_PAD;
use base64::Engine;
use uuid::Uuid;
use vstd::prelude::*;
use vstd::utf8::*;

verus! {

/// Lower-case hexadecimal digit for `d` (`0 <= d < 16`).
pub open spec fn hex_char(d: int) -> char {
    if d < 10 {
        (48 + d) as char
    } else {
        (87 + d) as char
    }
}

/// The last `k` hexadecimal digits of `v`, most significant first, with
/// leading zeros.
pub open spec fn hex_digits(v: nat, k: nat) -> Seq<char>
    decreases k,
{
    if k == 0 {
        seq![]
    } else {
        hex_digits(v / 16, (k - 1) as nat).push(hex_char((v % 16) as int))
    }
}

/// The hyphenated lower-case form of a UUID
/// (`xxxxxxxx-xxxx-xxxx-xxxx-xxxxxxxxxxxx`), digits taken from the
/// 128-bit value most significant first.
pub open spec fn uuid_text(v: u128) -> Seq<char> {
    let h = hex_digits(v as nat, 32);
    h.subrange(0, 8) + seq!['-'] + h.subrange(8, 12) + seq!['-'] + h.subrange(12, 16) + seq!['-']
        + h.subrange(16, 20) + seq!['-'] + h.subrange(20, 32)
}

/// What `URL_SAFE_NO_PAD.encode` returns for the given bytes.
pub uninterp spec fn base64url_encoding(bytes: Seq<u8>) -> Seq<char>;

/// What `URL_SAFE_NO_PAD.decode` returns for the given text (`None` for an error).
pub uninterp spec fn base64url_decoding(text: Seq<char>) -> Option<Seq<u8>>;

/// What `Uuid::parse_str` returns for the given text, as the UUID's 128-bit
/// value (`None` for an error).
pub uninterp spec fn uuid_parse(text: Seq<char>) -> Option<u128>;

/// Calls base64's `URL_SAFE_NO_PAD.encode`; the result is named
/// `base64url_encoding` of the input bytes.
#[verifier::external_body]
fn base64url_encode(bytes: &[u8]) -> (res: String)
    ensures
        res@ == base64url_encoding(bytes@),
{
    URL_SAFE_NO_PAD.encode(bytes)
}

/// Calls base64's `URL_SAFE_NO_PAD.decode`; the result is named
/// `base64url_decoding` of the text. Claims in addition that the text that
/// the engine itself wrote for some bytes decodes back to those bytes
/// (the unpadded encoding is canonical, which this engine's decoder requires).
#[verifier::external_body]
fn base64url_decode(text: &str) -> (res: Option<Vec<u8>>)
    ensures
        res.is_some() == base64url_decoding(text@).is_some(),
        res.is_some() ==> res.unwrap()@ == base64url_decoding(text@).unwrap(),
        forall|b: Seq<u8>| #[trigger] base64url_encoding(b) == text@ ==> res.is_some()
            && res.unwrap()@ == b,
{
    match URL_SAFE_NO_PAD.decode(text) {
        Ok(b) => Some(b),
        Err(_) => None,
    }
}

/// Calls `std::str::from_utf8`, which std documents as succeeding exactly
/// on valid UTF-8 and then viewing the same bytes as a string.
#[verifier::external_body]
fn utf8_decode(bytes: &[u8]) -> (res: Option<&str>)
    ensures
        res is Some <==> valid_utf8(bytes@),
        res matches Some(s) ==> s@ == decode_utf8(bytes@),
{
    std::str::from_utf8(bytes).ok()
}

/// Calls uuid's `Uuid::parse_str` and takes the UUID's 128-bit value; the
/// result is named `uuid_parse` of the text. Claims in addition that the
/// hyphenated lower-case form of a UUID parses back to that UUID.
#[verifier::external_body]
fn uuid_from_text(text: &str) -> (res: Option<u128>)
    ensures
        res == uuid_parse(text@),
        forall|v: u128| #[trigger] uuid_text(v) == text@ ==> res == Some(v),
{
    match Uuid::parse_str(text) {
        Ok(u) => Some(u.as_u128()),
        Err(_) => None,
    }
}

/// Calls `Uuid::from_u128` and `Display` on it, which uuid documents as the
/// hyphenated lower-case form.
#[verifier::external_body]
pub(crate) fn uuid_to_text(v: u128) -> (res: String)
    ensures
        res@ == uuid_text(v),
{
    Uuid::from_u128(v).to_string()
}

/// The cursor that names the game with this id.
pub open spec fn cursor_text(id: u128) -> Seq<char> {
    base64url_encoding(encode_utf8(uuid_text(id)))
}

/// The game id that a cursor names, if it names one: base64url-decode it,
/// read the bytes as UTF-8, and parse a UUID from the text.
pub open spec fn cursor_value(c: Seq<char>) -> Option<u128> {
    match base64url_decoding(c) {
        Some(b) => if valid_utf8(b) {
            uuid_parse(decode_utf8(b))
        } else {
            None
        },
        None => None,
    }
}

/// Encodes a game id as a keyset cursor.
pub fn encode_cursor(id: u128) -> (res: String)
    ensures
        res@ == cursor_text(id),
{
    let t = uuid_to_text(id);
    let bytes = t.as_str().as_bytes();
    base64url_encode(bytes)
}

/// Decodes a keyset cursor; `None` for text that names no game id.
/// A cursor made by `encode_cursor` decodes to the id it was made from.
pub fn decode_cursor(c: &str) -> (res: Option<u128>)
    ensures
        res == cursor_value(c@),
        forall|id: u128| #[trigger] cursor_text(id) == c@ ==> res == Some(id),
{
    let decoded = base64url_decode(c);
    let res = match decoded {
        None => None,
        Some(bytes) => {
            match utf8_decode(bytes.as_slice()) {
                None => None,
                Some(s) => uuid_from_text(s),
            }
        },
    };
    assert forall|id: u128| #[trigger] cursor_text(id) == c@ implies res == Some(id) by {
        let t = uuid_text(id);
        encode_utf8_valid_utf8(t);
        encode_utf8_decode_utf8(t);
    }
    res
}

/// How a request names a game.
pub enum GameKey {
    /// By its UUID (128-bit value).
    Id(u128),
    /// By its slug.
    Slug(String),
}

/// Reads a path segment as a game identifier: a UUID when it parses as one,
/// otherwise a slug.
pub fn classify_identifier(id_or_slug: &str) -> (k: GameKey)
    ensures
        match k {
            GameKey::Id(v) => uuid_parse(id_or_slug@) == Some(v),
            GameKey::Slug(s) => uuid_parse(id_or_slug@) is None && s@ == id_or_slug@,
        },
{
    match uuid_from_text(id_or_slug) {
        Some(v) => GameKey::Id(v),
        None => GameKey::Slug(String::from_str(id_or_slug)),
    }
}

} // verus!
