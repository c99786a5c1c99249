//! The formats a table can be written in.

use crate::strings::str_eq;
use vstd::prelude::*;
use vstd::string::StringExecFns;

verus! {

/// The format of converted output.
#[derive(Clone, Copy, Debug, PartialEq, Eq, Structural)]
pub enum OutputFormat {
    Json,
    Yaml,
}

/// A text that names no output format; the text is kept.
#[derive(Clone, Debug, PartialEq, Eq)]
pub struct UnknownOutputFormat(pub String);

impl UnknownOutputFormat {
    /// The text of `message`.
    pub open spec fn spec_message(&self) -> Seq<char> {
        "Unknown output format: "@ + self.0@
    }

    /// A line of text for the user.
    pub fn message(&self) -> (text: String)
        ensures
            text@ == self.spec_message(),
    {
        let mut line = "Unknown output format: ".to_owned();
        line.append(self.0.as_str());
        line
    }
}

impl OutputFormat {
    /// The name by which the format is selected, and under which it prints.
    pub open spec fn spec_name(self) -> Seq<char> {
        match self {
            OutputFormat::Json => "json"@,
            OutputFormat::Yaml => "yaml"@,
        }
    }

    pub fn as_str(self) -> (name: &'static str)
        ensures
            name@ == self.spec_name(),
    {
        From::from(self)
    }

    pub fn to_string(&self) -> (name: String)
        ensures
            name@ == self.spec_name(),
    {
        self.as_str().to_owned()
    }
}

/// The format that `text` names, if it names one.
pub open spec fn spec_parse(text: Seq<char>) -> Option<OutputFormat> {
    if text == "json"@ {
        Some(OutputFormat::Json)
    } else if text == "yaml"@ {
        Some(OutputFormat::Yaml)
    } else {
        None
    }
}

/// Selects the format that `input` names. Any other text is handed back as
/// the error.
pub fn parse_format(input: &str) -> (parsed: Result<OutputFormat, UnknownOutputFormat>)
    ensures
        match parsed {
            Ok(format) => spec_parse(input@) == Some(format),
            Err(e) => spec_parse(input@) is None && e.0@ == input@,
        },
{
    if str_eq(input, "json") {
        Ok(OutputFormat::Json)
    } else if str_eq(input, "yaml") {
        Ok(OutputFormat::Yaml)
    } else {
        Err(UnknownOutputFormat(input.to_owned()))
    }
}

impl From<OutputFormat> for &'static str {
    fn from(format: OutputFormat) -> (name: Self) {
        match format {
            OutputFormat::Json => "json",
            OutputFormat::Yaml => "yaml",
        }
    }
}

impl vstd::std_specs::convert::FromSpecImpl<OutputFormat> for &'static str {
    open spec fn obeys_from_spec() -> bool {
        true
    }

    open spec fn from_spec(format: OutputFormat) -> Self {
        match format {
            OutputFormat::Json => "json",
            OutputFormat::Yaml => "yaml",
        }
    }
}

impl std::str::FromStr for OutputFormat {
    type Err = UnknownOutputFormat;

    fn from_str(s: &str) -> (parsed: Result<Self, Self::Err>)
        ensures
            match parsed {
                Ok(format) => spec_parse(s@) == Some(format),
                Err(e) => spec_parse(s@) is None && e.0@ == s@,
            },
    {
        parse_format(s)
    }
}

} // verus!
