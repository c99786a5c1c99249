//! Checks on the file names that a user supplies.
//!
//! Whether a path exists is asked of the file system, and the answer may
//! differ from one call to the next. The decisions taken on the answers are
//! functions of their own, proved for every answer.

use crate::strings::str_eq;
use std::path::Path;
use vstd::prelude::*;

verus! {

/// Calls `Path::exists`. The answer depends on the file system, so nothing
/// is assumed of it.
#[verifier::external_body]
fn path_exists(path: &str) -> (found: bool) {
    Path::new(path).exists()
}

/// Calls `Path::is_dir`. The answer depends on the file system, so nothing
/// is assumed of it.
#[verifier::external_body]
fn path_is_dir(path: &str) -> (found: bool) {
    Path::new(path).is_dir()
}

/// The name that stands for standard input.
pub open spec fn names_standard_input(filename: Seq<char>) -> bool {
    filename == "-"@
}

/// What is made of an input file name once it is known whether a file of
/// that name exists: the name itself if it stands for standard input or the
/// file exists, else a complaint.
pub open spec fn spec_input_file(filename: Seq<char>, exists: bool) -> Result<
    Seq<char>,
    Seq<char>,
> {
    if names_standard_input(filename) || exists {
        Ok(filename)
    } else {
        Err("File does not exist"@)
    }
}

/// What is made of a directory name once it is known whether the path
/// exists and is a directory.
pub open spec fn spec_path(path: Seq<char>, exists: bool, is_dir: bool) -> Result<
    Seq<char>,
    Seq<char>,
> {
    if exists && is_dir {
        Ok(path)
    } else {
        Err("Path does not exist or is not a directory"@)
    }
}

/// Whether `judged` says what `expected` says.
pub open spec fn judged_as(
    judged: Result<String, &'static str>,
    expected: Result<Seq<char>, Seq<char>>,
) -> bool {
    match judged {
        Ok(name) => expected == Ok::<Seq<char>, Seq<char>>(name@),
        Err(complaint) => expected == Err::<Seq<char>, Seq<char>>(complaint@),
    }
}

/// Judges an input file name, given whether a file of that name exists.
pub fn input_file_verdict(filename: &str, exists: bool) -> (judged: Result<String, &'static str>)
    ensures
        judged_as(judged, spec_input_file(filename@, exists)),
{
    if str_eq(filename, "-") || exists {
        Ok(filename.to_owned())
    } else {
        Err("File does not exist")
    }
}

/// Judges a directory name, given whether the path exists and whether it is
/// a directory.
pub fn path_verdict(path: &str, exists: bool, is_dir: bool) -> (judged: Result<
    String,
    &'static str,
>)
    ensures
        judged_as(judged, spec_path(path@, exists, is_dir)),
{
    if exists && is_dir {
        Ok(path.to_owned())
    } else {
        Err("Path does not exist or is not a directory")
    }
}

/// Accepts `-`, which stands for standard input, and the name of any file
/// that exists. The file system is asked only for other names than `-`.
pub fn verify_input_file(filename: &str) -> (judged: Result<String, &'static str>)
    ensures
        exists|found: bool| judged_as(judged, spec_input_file(filename@, found)),
        names_standard_input(filename@) ==> judged_as(
            judged,
            Ok::<Seq<char>, Seq<char>>(filename@),
        ),
{
    let found = str_eq(filename, "-") || path_exists(filename);
    input_file_verdict(filename, found)
}

/// Accepts the name of a directory that exists.
pub fn verify_path(path: &str) -> (judged: Result<String, &'static str>)
    ensures
        exists|found: bool, is_dir: bool| judged_as(judged, spec_path(path@, found, is_dir)),
{
    let found = path_exists(path);
    let is_dir = found && path_is_dir(path);
    path_verdict(path, found, is_dir)
}

} // verus!
