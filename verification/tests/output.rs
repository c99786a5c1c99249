use rcli::{parse_format, OutputFormat, UnknownOutputFormat};
use std::str::FromStr;

#[test]
fn output_format_names_are_parsed() {
    assert_eq!(parse_format("json"), Ok(OutputFormat::Json));
    assert_eq!(parse_format("yaml"), Ok(OutputFormat::Yaml));
    assert_eq!(parse_format("toml"), Err(UnknownOutputFormat("toml".to_string())));
    assert_eq!(parse_format("JSON"), Err(UnknownOutputFormat("JSON".to_string())));
    assert_eq!("yaml".parse::<OutputFormat>(), Ok(OutputFormat::Yaml));
}

#[test]
fn output_formats_print_as_their_names() {
    assert_eq!(OutputFormat::Json.as_str(), "json");
    assert_eq!(OutputFormat::Yaml.as_str(), "yaml");
    assert_eq!(OutputFormat::Json.to_string(), "json");
    assert_eq!(OutputFormat::Yaml.to_string(), "yaml");
    assert_eq!(UnknownOutputFormat("toml".into()).message(), "Unknown output format: toml");
}

#[test]
fn formats_convert_into_their_names() {
    assert_eq!(<&str>::from(OutputFormat::Json), "json");
    assert_eq!(<&str>::from(OutputFormat::Yaml), "yaml");
    assert_eq!(<&str>::from(rcli::Base64Format::Standard), "standard");
    assert_eq!(<&str>::from(rcli::Base64Format::UrlSafe), "urlsafe");
    assert_eq!(<&str>::from(rcli::TextSignFormat::Blake3), "blake3");
    assert_eq!(<&str>::from(rcli::TextSignFormat::Ed25519), "ed25519");
}

#[test]
fn from_str_parses_as_the_parse_functions_do() {
    assert_eq!(OutputFormat::from_str("json"), Ok(OutputFormat::Json));
    assert_eq!(OutputFormat::from_str("yaml"), Ok(OutputFormat::Yaml));
    assert_eq!(OutputFormat::from_str("xml"), Err(UnknownOutputFormat("xml".to_string())));
    assert_eq!(rcli::Base64Format::from_str("standard"), Ok(rcli::Base64Format::Standard));
    assert_eq!(rcli::Base64Format::from_str("urlsafe"), Ok(rcli::Base64Format::UrlSafe));
    assert_eq!(
        rcli::Base64Format::from_str("hex"),
        Err(rcli::Base64Error::UnknownFormat("hex".to_string()))
    );
    assert_eq!(rcli::TextSignFormat::from_str("blake3"), Ok(rcli::TextSignFormat::Blake3));
    assert_eq!(rcli::TextSignFormat::from_str("ed25519"), Ok(rcli::TextSignFormat::Ed25519));
    assert_eq!(
        rcli::TextSignFormat::from_str("rsa"),
        Err(rcli::TextError::UnknownScheme("rsa".to_string()))
    );
}
