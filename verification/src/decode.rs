//! Turning the bytes of a plain-text file into text: UTF-8 when the bytes
//! are UTF-8, else the first of a few single-byte encodings that decodes
//! them without error, else UTF-8 with replacement characters.

use vstd::prelude::*;
use vstd::utf8::{decode_utf8, valid_utf8};

use crate::text::str_eq;

verus! {

/// The longest input that `Encoding::decode` takes: its buffer
/// arithmetic (three output bytes per input byte, plus a few) overflows
/// `usize`, and it panics, only beyond this.
pub const MAX_DECODE_LEN: usize = usize::MAX / 8;

/// The encodings that the text handler tries.
#[derive(Clone, Copy, Debug, PartialEq, Eq)]
pub enum TextEncoding {
    Utf8,
    Windows1252,
    Iso8859_2,
}

/// The name that `encoding_rs` gives each encoding.
pub open spec fn encoding_label(enc: TextEncoding) -> Seq<char> {
    match enc {
        TextEncoding::Utf8 => "UTF-8"@,
        TextEncoding::Windows1252 => "windows-1252"@,
        TextEncoding::Iso8859_2 => "ISO-8859-2"@,
    }
}

/// What `Encoding::decode` returns for `bytes`: the decoded text, the name
/// of the encoding actually used (a byte order mark overrides the one
/// asked for) and whether malformed sequences were replaced.
pub uninterp spec fn encoding_decode(enc: TextEncoding, bytes: Seq<u8>) -> (
    Seq<char>,
    Seq<char>,
    bool,
);

/// What `String::from_utf8_lossy` returns for `bytes`.
pub uninterp spec fn utf8_lossy(bytes: Seq<u8>) -> Seq<char>;

pub open spec fn option_string_view(o: Option<String>) -> Option<Seq<char>> {
    match o {
        Some(s) => Some(s@),
        None => None,
    }
}

/// The encoding that a byte order mark at the start of `bytes` selects,
/// by its `encoding_rs` name, if it starts with one.
pub open spec fn bom_encoding_name(bytes: Seq<u8>) -> Option<Seq<char>> {
    if bytes.len() >= 3 && bytes[0] == 0xEFu8 && bytes[1] == 0xBBu8 && bytes[2] == 0xBFu8 {
        Some("UTF-8"@)
    } else if bytes.len() >= 2 && bytes[0] == 0xFFu8 && bytes[1] == 0xFEu8 {
        Some("UTF-16LE"@)
    } else if bytes.len() >= 2 && bytes[0] == 0xFEu8 && bytes[1] == 0xFFu8 {
        Some("UTF-16BE"@)
    } else {
        None
    }
}

/// A decoding pass as plain values: text, name of the encoding used,
/// whether malformed sequences were replaced.
pub open spec fn pass_view(p: (String, String, bool)) -> (Seq<char>, Seq<char>, bool) {
    (p.0@, p.1@, p.2)
}

/// Which of the decodings of one input the text handler keeps, and the
/// encoding name it reports: the strict UTF-8 result when there is one;
/// else the BOM-sniffing UTF-8 pass when it ran as UTF-8; else the first
/// single-byte pass without malformed sequences; else the lossy text.
pub open spec fn decoding_choice(
    strict: Option<Seq<char>>,
    utf8_pass: (Seq<char>, Seq<char>, bool),
    windows_pass: (Seq<char>, Seq<char>, bool),
    latin2_pass: (Seq<char>, Seq<char>, bool),
    lossy: Seq<char>,
) -> (Seq<char>, Option<Seq<char>>) {
    match strict {
        Some(text) => (text, Some("UTF-8"@)),
        None => if utf8_pass.1 == "UTF-8"@ {
            (utf8_pass.0, Some("UTF-8"@))
        } else if !windows_pass.2 {
            (windows_pass.0, Some(encoding_label(TextEncoding::Windows1252)))
        } else if !latin2_pass.2 {
            (latin2_pass.0, Some(encoding_label(TextEncoding::Iso8859_2)))
        } else {
            (lossy, Some("UTF-8 (with replacements)"@))
        },
    }
}

/// The text and encoding name that the text handler gives `bytes`.
pub open spec fn decoded_text(bytes: Seq<u8>) -> (Seq<char>, Option<Seq<char>>) {
    decoding_choice(
        if valid_utf8(bytes) { Some(decode_utf8(bytes)) } else { None },
        encoding_decode(TextEncoding::Utf8, bytes),
        encoding_decode(TextEncoding::Windows1252, bytes),
        encoding_decode(TextEncoding::Iso8859_2, bytes),
        utf8_lossy(bytes),
    )
}

/// `String::from_utf8`: the contract claims success exactly on valid
/// UTF-8, with the decoded characters.
#[verifier::external_body]
fn string_from_utf8(bytes: &[u8]) -> (r: Result<String, std::string::FromUtf8Error>)
    ensures
        r is Ok <==> valid_utf8(bytes@),
        r matches Ok(s) ==> s@ == decode_utf8(bytes@),
{
    String::from_utf8(bytes.to_vec())
}

/// `String::from_utf8_lossy`: the contract names the result and claims
/// that valid UTF-8 is decoded without replacement.
#[verifier::external_body]
fn string_from_utf8_lossy(bytes: &[u8]) -> (r: String)
    ensures
        r@ == utf8_lossy(bytes@),
        valid_utf8(bytes@) ==> r@ == decode_utf8(bytes@),
{
    String::from_utf8_lossy(bytes).into_owned()
}

/// `encoding_rs::Encoding::decode` for one of the tried encodings,
/// together with `Encoding::name` of the encoding it reports as used.
/// The contract names the result, and claims the documented rule for
/// that encoding: a byte order mark at the start selects its encoding,
/// otherwise the one asked for is used. Inputs on which the buffer size
/// calculation would overflow (and `decode` panic) are left out.
#[verifier::external_body]
fn decode_with(enc: TextEncoding, bytes: &[u8]) -> (r: (String, String, bool))
    requires
        bytes@.len() <= MAX_DECODE_LEN,
    ensures
        pass_view(r) == encoding_decode(enc, bytes@),
        r.1@ == match bom_encoding_name(bytes@) {
            Some(name) => name,
            None => encoding_label(enc),
        },
{
    let encoding = match enc {
        TextEncoding::Utf8 => encoding_rs::UTF_8,
        TextEncoding::Windows1252 => encoding_rs::WINDOWS_1252,
        TextEncoding::Iso8859_2 => encoding_rs::ISO_8859_2,
    };
    let (text, used, had_errors) = encoding.decode(bytes);
    (text.into_owned(), used.name().to_string(), had_errors)
}

/// `encoding_rs::Encoding::name`: the contract claims the names that
/// `encoding_rs` documents for these encodings.
#[verifier::external_body]
fn encoding_name(enc: TextEncoding) -> (r: &'static str)
    ensures
        r@ == encoding_label(enc),
{
    match enc {
        TextEncoding::Utf8 => encoding_rs::UTF_8.name(),
        TextEncoding::Windows1252 => encoding_rs::WINDOWS_1252.name(),
        TextEncoding::Iso8859_2 => encoding_rs::ISO_8859_2.name(),
    }
}

/// Picks among the decodings of one input what the text handler keeps
/// (see `decoding_choice`); `strict` is the result of the strict UTF-8
/// conversion, the passes those of `Encoding::decode` for UTF-8,
/// windows-1252 and ISO-8859-2, `lossy` the lossy UTF-8 conversion.
pub fn choose_decoding(
    strict: Option<String>,
    utf8_pass: (String, String, bool),
    windows_pass: (String, String, bool),
    latin2_pass: (String, String, bool),
    lossy: String,
) -> (r: (String, Option<String>))
    ensures
        (r.0@, option_string_view(r.1)) == decoding_choice(
            option_string_view(strict),
            pass_view(utf8_pass),
            pass_view(windows_pass),
            pass_view(latin2_pass),
            lossy@,
        ),
{
    match strict {
        Some(content) => (content, Some("UTF-8".to_owned())),
        None => {
            if str_eq(utf8_pass.1.as_str(), "UTF-8") {
                (utf8_pass.0, Some("UTF-8".to_owned()))
            } else if !windows_pass.2 {
                (windows_pass.0, Some(encoding_name(TextEncoding::Windows1252).to_owned()))
            } else if !latin2_pass.2 {
                (latin2_pass.0, Some(encoding_name(TextEncoding::Iso8859_2).to_owned()))
            } else {
                (lossy, Some("UTF-8 (with replacements)".to_owned()))
            }
        },
    }
}

/// Decodes the bytes of a plain-text file and names the encoding used.
/// Valid UTF-8 is kept as it is; otherwise the input is decoded by
/// `encoding_rs` and the choice among the results is `choose_decoding`'s.
pub fn decode_text(bytes: &[u8]) -> (r: (String, Option<String>))
    requires
        bytes@.len() <= MAX_DECODE_LEN,
    ensures
        (r.0@, option_string_view(r.1)) == decoded_text(bytes@),
        !(bom_encoding_name(bytes@) matches Some(name) && name != "UTF-8"@) ==> option_string_view(
            r.1,
        ) == Some("UTF-8"@),
{
    match string_from_utf8(bytes) {
        Ok(content) => (content, Some("UTF-8".to_owned())),
        Err(_) => {
            let utf8_pass = decode_with(TextEncoding::Utf8, bytes);
            let windows_pass = decode_with(TextEncoding::Windows1252, bytes);
            let latin2_pass = decode_with(TextEncoding::Iso8859_2, bytes);
            let lossy = string_from_utf8_lossy(bytes);
            choose_decoding(None, utf8_pass, windows_pass, latin2_pass, lossy)
        },
    }
}

} // verus!
