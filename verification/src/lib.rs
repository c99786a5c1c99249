//! A toolbox for the command line: signing and verifying messages under a
//! keyed hash or an asymmetric signature, base64 transcoding, random
//! passwords, and the checks and decisions around them.
//!
//! The library takes and returns plain values. Reading files and standard
//! input, writing keys and serving requests are the caller's.

pub mod b64;
pub mod errors;
pub mod gen_pass;
pub mod http_serve;
pub mod keys;
pub mod laws;
pub mod output;
pub mod paths;
pub mod primitives;
pub mod scheme;
pub mod strings;
pub mod text;

pub use b64::{parse_base64_format, process_decode, process_encode, Base64Error, Base64Format};
pub use errors::TextError;
pub use gen_pass::{generate_password, process_genpass};
pub use http_serve::{file_reply, FileOutcome};
pub use keys::{
    signature_matches, Blake3, Ed25519Signer, Ed25519Verifier, KeyGenerator, KeyLoader, TestSign,
    TextVerify,
};
pub use output::{parse_format, OutputFormat, UnknownOutputFormat};
pub use paths::{input_file_verdict, path_verdict, verify_input_file, verify_path};
pub use scheme::{parse_text_sign_format, TextSignFormat};
pub use text::{
    process_generate, process_text_sign, process_text_verify, sign_message, verify_signature,
};
