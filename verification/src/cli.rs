//! What the command line asks of the compiler.

use crate::text::owned;
use std::path::Path;
use vstd::prelude::*;

verus! {

/// The request to compile one file. Paths are held as text.
#[derive(Debug)]
pub struct BuildCommand {
    /// The file to read; `-` stands for the standard input.
    pub input: String,
    /// The file to write; `-` stands for the standard output.
    pub output: Option<String>,
    /// Patterns that name the post-processors to leave out.
    pub no_proc: Vec<String>,
    /// Whether the output is to be made as short as possible.
    pub minify: bool,
}

/// Whether `path` is the name of a file and nothing else, on every
/// platform: it is not empty, not `.` and not `..`, and holds none of `/`,
/// `\` and `:`.
pub open spec fn is_plain_name(path: Seq<char>) -> bool {
    &&& path.len() > 0
    &&& path != seq!['.']
    &&& path != seq!['.', '.']
    &&& !path.contains('/')
    &&& !path.contains('\\')
    &&& !path.contains(':')
}

/// The position of the last `.` among the first `n` characters of `name`
/// that is not its first character, or 0 if there is none.
pub open spec fn last_dot(name: Seq<char>, n: int) -> int
    decreases n,
{
    if n <= 1 || n > name.len() {
        0
    } else if name[n - 1] == '.' {
        n - 1
    } else {
        last_dot(name, n - 1)
    }
}

/// The file name without its extension: the text before its last `.`, or
/// all of it if it has no `.` but a first one.
pub open spec fn stem(name: Seq<char>) -> Seq<char> {
    let at = last_dot(name, name.len() as int);
    if at > 0 {
        name.take(at)
    } else {
        name
    }
}

/// The file name with `extension` in place of its own extension.
pub open spec fn with_suffix(name: Seq<char>, extension: Seq<char>) -> Seq<char> {
    stem(name) + seq!['.'] + extension
}

/// `Path::with_extension`: the path with the extension of its file name
/// replaced by `extension`, or with `extension` added if the file name has
/// none. How a path falls into directories and file name is the platform's
/// matter, so the result is stated for a plain file name and an extension
/// that is not empty, and for nothing else. The call panics on an extension
/// that holds a path separator; such an extension is left out.
#[verifier::external_body]
fn with_extension(path: &str, extension: &str) -> (r: String)
    requires
        !extension@.contains('/'),
        !extension@.contains('\\'),
    ensures
        is_plain_name(path@) && extension@.len() > 0 ==> r@ == with_suffix(path@, extension@),
{
    Path::new(path).with_extension(extension).to_string_lossy().into_owned()
}

/// The path to write the script of `command` to: the output path if one is
/// given; else `-` if the input is `-`, so that what comes from the
/// standard input goes to the standard output; else the input path with
/// the extension `sh` in place of its own. Of an input path with
/// directories the last case says nothing: the platform decides where its
/// file name begins.
pub fn create_output(command: &BuildCommand) -> (r: String)
    ensures
        command.output matches Some(path) ==> r@ == path@,
        command.output is None && command.input@ == "-"@ ==> r@ == "-"@,
        command.output is None && command.input@ != "-"@ && is_plain_name(command.input@) ==> r@
            == with_suffix(command.input@, "sh"@),
{
    match &command.output {
        Some(path) => owned(path.as_str()),
        None => {
            if command.input.as_str().eq("-") {
                owned("-")
            } else {
                proof {
                    reveal_strlit("sh");
                }
                with_extension(command.input.as_str(), "sh")
            }
        },
    }
}

} // verus!
