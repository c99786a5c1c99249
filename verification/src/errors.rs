//! The errors of the signing subsystem.

use vstd::prelude::*;
use vstd::string::StringExecFns;

verus! {

/// Why a key, a scheme name or a signature was refused.
#[derive(Clone, Debug, PartialEq, Eq)]
pub enum TextError {
    /// The key material holds fewer bytes than the scheme needs.
    KeyTooShort,
    /// The key material is not the encoding of a key of the scheme.
    InvalidKeyEncoding,
    /// The text names no scheme; the text is kept.
    UnknownScheme(String),
    /// The signature is not base64 text, or has the wrong length.
    MalformedSignature,
}

impl TextError {
    /// The text of `message`.
    pub open spec fn spec_message(&self) -> Seq<char> {
        match self {
            TextError::KeyTooShort => "Key material is too short"@,
            TextError::InvalidKeyEncoding => "Key material is not a valid key"@,
            TextError::UnknownScheme(text) => "Invalid format "@ + text@,
            TextError::MalformedSignature => "Signature is malformed"@,
        }
    }

    /// A line of text for the user.
    pub fn message(&self) -> (text: String)
        ensures
            text@ == self.spec_message(),
    {
        match self {
            TextError::KeyTooShort => "Key material is too short".to_owned(),
            TextError::InvalidKeyEncoding => "Key material is not a valid key".to_owned(),
            TextError::UnknownScheme(text) => {
                let mut line = "Invalid format ".to_owned();
                line.append(text.as_str());
                line
            },
            TextError::MalformedSignature => "Signature is malformed".to_owned(),
        }
    }
}

} // verus!
