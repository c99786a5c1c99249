//! The closed set of signing schemes and their names.

use crate::errors::TextError;
use crate::strings::str_eq;
use vstd::prelude::*;

verus! {

/// The two signing schemes: a keyed hash and an asymmetric signature.
#[derive(Clone, Copy, Debug, PartialEq, Eq, Structural)]
pub enum TextSignFormat {
    Blake3,
    Ed25519,
}

impl TextSignFormat {
    /// The name by which the scheme is selected.
    pub open spec fn spec_name(self) -> Seq<char> {
        match self {
            TextSignFormat::Blake3 => "blake3"@,
            TextSignFormat::Ed25519 => "ed25519"@,
        }
    }

    /// Length in bytes of a raw signature of the scheme.
    pub open spec fn spec_signature_len(self) -> nat {
        match self {
            TextSignFormat::Blake3 => 32,
            TextSignFormat::Ed25519 => 64,
        }
    }

    pub fn as_str(self) -> (name: &'static str)
        ensures
            name@ == self.spec_name(),
    {
        From::from(self)
    }

    pub fn to_string(&self) -> (name: String)
        ensures
            name@ == self.spec_name(),
    {
        self.as_str().to_owned()
    }

    pub fn signature_len(self) -> (len: usize)
        ensures
            len == self.spec_signature_len(),
    {
        match self {
            TextSignFormat::Blake3 => 32,
            TextSignFormat::Ed25519 => 64,
        }
    }
}

/// The scheme that `text` names, if it names one.
pub open spec fn spec_parse(text: Seq<char>) -> Option<TextSignFormat> {
    if text == "blake3"@ {
        Some(TextSignFormat::Blake3)
    } else if text == "ed25519"@ {
        Some(TextSignFormat::Ed25519)
    } else {
        None
    }
}

/// Selects the scheme that `s` names. Any other text is handed back in
/// `UnknownScheme`.
pub fn parse_text_sign_format(s: &str) -> (parsed: Result<TextSignFormat, TextError>)
    ensures
        match parsed {
            Ok(format) => spec_parse(s@) == Some(format),
            Err(TextError::UnknownScheme(text)) => spec_parse(s@) is None && text@ == s@,
            Err(_) => false,
        },
{
    if str_eq(s, "blake3") {
        Ok(TextSignFormat::Blake3)
    } else if str_eq(s, "ed25519") {
        Ok(TextSignFormat::Ed25519)
    } else {
        Err(TextError::UnknownScheme(s.to_owned()))
    }
}

/// A scheme is selected by its own name and by no other text.
pub proof fn lemma_parse_inverts_name(text: Seq<char>, format: TextSignFormat)
    ensures
        spec_parse(text) == Some(format) <==> text == format.spec_name(),
{
    lemma_scheme_names_differ(TextSignFormat::Blake3, TextSignFormat::Ed25519);
}

/// The two scheme names differ, so a name selects at most one scheme.
pub proof fn lemma_scheme_names_differ(a: TextSignFormat, b: TextSignFormat)
    ensures
        a.spec_name() == b.spec_name() <==> a == b,
{
    reveal_strlit("blake3");
    reveal_strlit("ed25519");
    assert("blake3"@.len() == 6);
    assert("ed25519"@.len() == 7);
}

impl From<TextSignFormat> for &'static str {
    fn from(format: TextSignFormat) -> (name: Self) {
        match format {
            TextSignFormat::Blake3 => "blake3",
            TextSignFormat::Ed25519 => "ed25519",
        }
    }
}

impl vstd::std_specs::convert::FromSpecImpl<TextSignFormat> for &'static str {
    open spec fn obeys_from_spec() -> bool {
        true
    }

    open spec fn from_spec(format: TextSignFormat) -> Self {
        match format {
            TextSignFormat::Blake3 => "blake3",
            TextSignFormat::Ed25519 => "ed25519",
        }
    }
}

impl std::str::FromStr for TextSignFormat {
    type Err = TextError;

    fn from_str(s: &str) -> (parsed: Result<Self, Self::Err>)
        ensures
            match parsed {
                Ok(format) => spec_parse(s@) == Some(format),
                Err(TextError::UnknownScheme(text)) => spec_parse(s@) is None && text@ == s@,
                Err(_) => false,
            },
    {
        parse_text_sign_format(s)
    }
}

} // verus!
