//! Base64 text, in the standard alphabet with padding and in the URL-safe
//! alphabet without.
//!
//! The transcoding itself is the `base64` crate's. Its results are named
//! here, and the functions that call it are assumed to return them.

use crate::strings::{str_eq, string_from_utf8, trim, trimmed};
use base64::engine::general_purpose::{STANDARD, URL_SAFE_NO_PAD};
use base64::{DecodeError, Engine};
use vstd::prelude::*;
use vstd::string::StringExecFns;
use vstd::utf8::{decode_utf8, valid_utf8};

verus! {

/// The text that the `STANDARD` engine's `encode` gives for `bytes`.
pub uninterp spec fn base64_standard_text(bytes: Seq<u8>) -> Seq<char>;

/// The bytes that the `STANDARD` engine's `decode` gives for `text`, or
/// `None` where it reports an error.
pub uninterp spec fn base64_standard_bytes(text: Seq<char>) -> Option<Seq<u8>>;

/// The text that the `URL_SAFE_NO_PAD` engine's `encode` gives for `bytes`.
pub uninterp spec fn base64_url_text(bytes: Seq<u8>) -> Seq<char>;

/// The bytes that the `URL_SAFE_NO_PAD` engine's `decode` gives for `text`,
/// or `None` where it reports an error.
pub uninterp spec fn base64_url_bytes(text: Seq<char>) -> Option<Seq<u8>>;

/// Number of characters that encode `n` bytes with padding: four for every
/// three bytes or part of three.
pub open spec fn padded_len(n: nat) -> nat {
    n / 3 * 4 + if n % 3 > 0 { 4nat } else { 0nat }
}

/// Number of characters that encode `n` bytes without padding: four for every
/// three bytes, then two for one byte left over or three for two.
pub open spec fn unpadded_len(n: nat) -> nat {
    n / 3 * 4 + if n % 3 > 0 { n % 3 + 1 } else { 0nat }
}

#[verifier::external_type_specification]
#[verifier::external_body]
pub struct ExDecodeError(DecodeError);

/// Calls `encode` on the `STANDARD` engine.
///
/// Assumed: the text is a function of the bytes, has the padded length, and
/// decodes to the same bytes. The call panics when the text would be too long
/// to allocate, which the precondition rules out.
#[verifier::external_body]
pub(crate) fn standard_encode(bytes: &[u8]) -> (text: String)
    requires
        padded_len(bytes@.len()) <= isize::MAX,
    ensures
        text@ == base64_standard_text(bytes@),
        text@.len() == padded_len(bytes@.len()),
        base64_standard_bytes(text@) == Some(bytes@),
{
    STANDARD.encode(bytes)
}

/// Calls `decode` on the `STANDARD` engine.
///
/// Assumed: whether the text decodes, and to which bytes, is a function of
/// the text.
#[verifier::external_body]
pub(crate) fn standard_decode(text: &str) -> (decoded: Result<Vec<u8>, DecodeError>)
    ensures
        match decoded {
            Ok(bytes) => base64_standard_bytes(text@) == Some(bytes@),
            Err(_) => base64_standard_bytes(text@) is None,
        },
{
    STANDARD.decode(text)
}

/// Calls `encode` on the `URL_SAFE_NO_PAD` engine.
///
/// Assumed: the text is a function of the bytes, has the unpadded length, and
/// decodes to the same bytes. The call panics when the text would be too long
/// to allocate, which the precondition rules out.
#[verifier::external_body]
pub(crate) fn url_safe_encode(bytes: &[u8]) -> (text: String)
    requires
        unpadded_len(bytes@.len()) <= isize::MAX,
    ensures
        text@ == base64_url_text(bytes@),
        text@.len() == unpadded_len(bytes@.len()),
        base64_url_bytes(text@) == Some(bytes@),
{
    URL_SAFE_NO_PAD.encode(bytes)
}

/// Calls `decode` on the `URL_SAFE_NO_PAD` engine.
///
/// Assumed: whether the text decodes, and to which bytes, is a function of
/// the text.
#[verifier::external_body]
pub(crate) fn url_safe_decode(text: &str) -> (decoded: Result<Vec<u8>, DecodeError>)
    ensures
        match decoded {
            Ok(bytes) => base64_url_bytes(text@) == Some(bytes@),
            Err(_) => base64_url_bytes(text@) is None,
        },
{
    URL_SAFE_NO_PAD.decode(text)
}

/// The two kinds of base64 text.
#[derive(Clone, Copy, Debug, PartialEq, Eq, Structural)]
pub enum Base64Format {
    /// The standard alphabet, padded with `=`.
    Standard,
    /// The URL-safe alphabet, without padding.
    UrlSafe,
}

/// Why a format name or base64 text was refused.
#[derive(Clone, Debug, PartialEq, Eq)]
pub enum Base64Error {
    /// The text names no format; the text is kept.
    UnknownFormat(String),
    /// The text is not base64 of the chosen format.
    InvalidEncoding,
    /// The decoded bytes are not UTF-8 text.
    InvalidUtf8,
}

impl Base64Error {
    /// The text of `message`.
    pub open spec fn spec_message(&self) -> Seq<char> {
        match self {
            Base64Error::UnknownFormat(text) => "Unknown base64 format: "@ + text@,
            Base64Error::InvalidEncoding => "Input is not valid base64"@,
            Base64Error::InvalidUtf8 => "Decoded bytes are not valid UTF-8"@,
        }
    }

    /// A line of text for the user.
    pub fn message(&self) -> (text: String)
        ensures
            text@ == self.spec_message(),
    {
        match self {
            Base64Error::UnknownFormat(text) => {
                let mut line = "Unknown base64 format: ".to_owned();
                line.append(text.as_str());
                line
            },
            Base64Error::InvalidEncoding => "Input is not valid base64".to_owned(),
            Base64Error::InvalidUtf8 => "Decoded bytes are not valid UTF-8".to_owned(),
        }
    }
}

impl Base64Format {
    /// The name by which the format is selected.
    pub open spec fn spec_name(self) -> Seq<char> {
        match self {
            Base64Format::Standard => "standard"@,
            Base64Format::UrlSafe => "urlsafe"@,
        }
    }

    /// The name of the variant, which is what the format prints as.
    pub open spec fn spec_variant_name(self) -> Seq<char> {
        match self {
            Base64Format::Standard => "Standard"@,
            Base64Format::UrlSafe => "UrlSafe"@,
        }
    }

    /// The text that encodes `bytes` in this format.
    pub open spec fn spec_text(self, bytes: Seq<u8>) -> Seq<char> {
        match self {
            Base64Format::Standard => base64_standard_text(bytes),
            Base64Format::UrlSafe => base64_url_text(bytes),
        }
    }

    /// The bytes that `text` encodes in this format, if it encodes any.
    pub open spec fn spec_bytes(self, text: Seq<char>) -> Option<Seq<u8>> {
        match self {
            Base64Format::Standard => base64_standard_bytes(text),
            Base64Format::UrlSafe => base64_url_bytes(text),
        }
    }

    /// Number of characters that encode `n` bytes in this format.
    pub open spec fn spec_text_len(self, n: nat) -> nat {
        match self {
            Base64Format::Standard => padded_len(n),
            Base64Format::UrlSafe => unpadded_len(n),
        }
    }

    pub fn as_str(self) -> (name: &'static str)
        ensures
            name@ == self.spec_name(),
    {
        From::from(self)
    }

    /// The format as it prints: the name of its variant.
    pub fn to_string(&self) -> (name: String)
        ensures
            name@ == self.spec_variant_name(),
    {
        match self {
            Base64Format::Standard => "Standard".to_owned(),
            Base64Format::UrlSafe => "UrlSafe".to_owned(),
        }
    }
}

/// The format that `text` names, if it names one.
pub open spec fn spec_parse(text: Seq<char>) -> Option<Base64Format> {
    if text == "standard"@ {
        Some(Base64Format::Standard)
    } else if text == "urlsafe"@ {
        Some(Base64Format::UrlSafe)
    } else {
        None
    }
}

/// Selects the format that `s` names. Any other text is handed back in
/// `UnknownFormat`.
pub fn parse_base64_format(s: &str) -> (parsed: Result<Base64Format, Base64Error>)
    ensures
        match parsed {
            Ok(format) => spec_parse(s@) == Some(format),
            Err(Base64Error::UnknownFormat(text)) => spec_parse(s@) is None && text@ == s@,
            Err(_) => false,
        },
{
    if str_eq(s, "standard") {
        Ok(Base64Format::Standard)
    } else if str_eq(s, "urlsafe") {
        Ok(Base64Format::UrlSafe)
    } else {
        Err(Base64Error::UnknownFormat(s.to_owned()))
    }
}

impl From<Base64Format> for &'static str {
    fn from(format: Base64Format) -> (name: Self) {
        match format {
            Base64Format::Standard => "standard",
            Base64Format::UrlSafe => "urlsafe",
        }
    }
}

impl vstd::std_specs::convert::FromSpecImpl<Base64Format> for &'static str {
    open spec fn obeys_from_spec() -> bool {
        true
    }

    open spec fn from_spec(format: Base64Format) -> Self {
        match format {
            Base64Format::Standard => "standard",
            Base64Format::UrlSafe => "urlsafe",
        }
    }
}

impl std::str::FromStr for Base64Format {
    type Err = Base64Error;

    fn from_str(s: &str) -> (parsed: Result<Self, Self::Err>)
        ensures
            match parsed {
                Ok(format) => spec_parse(s@) == Some(format),
                Err(Base64Error::UnknownFormat(text)) => spec_parse(s@) is None && text@ == s@,
                Err(_) => false,
            },
    {
        parse_base64_format(s)
    }
}

/// The text is never longer with padding left out.
pub proof fn lemma_unpadded_is_no_longer(n: nat)
    ensures
        unpadded_len(n) <= padded_len(n),
{
}

/// Encodes `input` as base64 text of the chosen format.
pub fn process_encode(input: &[u8], format: Base64Format) -> (text: String)
    requires
        padded_len(input@.len()) <= isize::MAX,
    ensures
        text@ == format.spec_text(input@),
        text@.len() == format.spec_text_len(input@.len()),
        format.spec_bytes(text@) == Some(input@),
{
    match format {
        Base64Format::Standard => standard_encode(input),
        Base64Format::UrlSafe => {
            proof {
                lemma_unpadded_is_no_longer(input@.len());
            }
            url_safe_encode(input)
        },
    }
}

/// What decoding `input` gives: the text that its base64 content encodes,
/// white space around the content being ignored.
pub open spec fn spec_decode(input: Seq<char>, format: Base64Format) -> Result<
    Seq<char>,
    Base64Error,
> {
    match format.spec_bytes(trimmed(input)) {
        Some(bytes) => decoded_text(bytes),
        None => Err(Base64Error::InvalidEncoding),
    }
}

/// The text that `bytes` hold, if they are UTF-8.
pub open spec fn decoded_text(bytes: Seq<u8>) -> Result<Seq<char>, Base64Error> {
    if valid_utf8(bytes) {
        Ok(decode_utf8(bytes))
    } else {
        Err(Base64Error::InvalidUtf8)
    }
}

/// Reads `bytes` as UTF-8 text.
pub fn text_of_bytes(bytes: Vec<u8>) -> (text: Result<String, Base64Error>)
    ensures
        match text {
            Ok(s) => decoded_text(bytes@) == Ok::<Seq<char>, Base64Error>(s@),
            Err(e) => decoded_text(bytes@) == Err::<Seq<char>, Base64Error>(e),
        },
{
    match string_from_utf8(bytes) {
        Ok(s) => Ok(s),
        Err(_) => Err(Base64Error::InvalidUtf8),
    }
}

/// Decodes base64 text of the chosen format into the text it encodes.
pub fn process_decode(input: &str, format: Base64Format) -> (text: Result<String, Base64Error>)
    ensures
        match text {
            Ok(s) => spec_decode(input@, format) == Ok::<Seq<char>, Base64Error>(s@),
            Err(e) => spec_decode(input@, format) == Err::<Seq<char>, Base64Error>(e),
        },
{
    let content = trim(input);
    let decoded = match format {
        Base64Format::Standard => standard_decode(content),
        Base64Format::UrlSafe => url_safe_decode(content),
    };
    match decoded {
        Ok(bytes) => text_of_bytes(bytes),
        Err(_) => Err(Base64Error::InvalidEncoding),
    }
}

} // verus!
