//! Decisions behind the command line.
//!
//! The caller parses arguments and looks at the filesystem; the rules that
//! accept or reject what it found, and the names derived from the output
//! path, live here.

use vstd::prelude::*;

verus! {

use vstd::string::StrSliceExecFns;
use vstd::string::StringExecFns;

/// Whether `s` ends with `suffix`.
pub open spec fn ends_with(s: Seq<char>, suffix: Seq<char>) -> bool {
    s.len() >= suffix.len() && s.skip(s.len() - suffix.len()) == suffix
}

/// Accepts an output archive name exactly when it ends in `.tar.gz`.
pub fn output_validator(s: String) -> (r: Result<(), String>)
    ensures
        r is Ok <==> ends_with(s@, ".tar.gz"@),
        r matches Err(m) ==> m@ == "must end in .tar.gz: "@ + s@,
{
    let n = s.as_str().unicode_len();
    let suffix_len = ".tar.gz".unicode_len();
    if n >= suffix_len {
        let tail = s.as_str().substring_char(n - suffix_len, n);
        let tail: String = tail.to_owned();
        let pattern: String = ".tar.gz".to_owned();
        if tail == pattern {
            assert(s@.skip(s@.len() - ".tar.gz"@.len()) =~= tail@);
            return Ok(());
        }
    }
    assert(!ends_with(s@, ".tar.gz"@)) by {
        if n >= suffix_len {
            assert(s@.skip(s@.len() - ".tar.gz"@.len()) =~= s@.subrange(
                n - suffix_len,
                n as int,
            ));
        }
    }
    Err("must end in .tar.gz: ".to_owned().concat(s.as_str()))
}

/// Accepts an input path exactly when it exists and is a directory, as the
/// caller observed it; otherwise names what was wrong with it.
pub fn input_validator(s: &str, path_exists: bool, path_is_dir: bool) -> (r: Result<(), String>)
    ensures
        r is Ok <==> (path_exists && path_is_dir),
        r matches Err(m) ==> m@ == if !path_exists {
            "does not exist: "@ + s@
        } else {
            "not a directory: "@ + s@
        },
{
    if !path_exists {
        Err("does not exist: ".to_owned().concat(s))
    } else if !path_is_dir {
        Err("not a directory: ".to_owned().concat(s))
    } else {
        Ok(())
    }
}

/// Whether a build may proceed: an existing output is only overwritten
/// under an explicit overwrite permission, and the decision falls before
/// any byte is written.
pub fn build_may_proceed(output_exists: bool, force: bool) -> (r: bool)
    ensures
        r == (force || !output_exists),
{
    force || !output_exists
}

/// Whether progress output is wanted: the verbose flag enables it unless a
/// quiet flag came later on the command line.
pub fn verbose_enabled(last_quiet: Option<usize>, last_verbose: Option<usize>) -> (r: bool)
    ensures
        r == (last_verbose is Some && (last_quiet matches Some(q) ==> q
            <= last_verbose.unwrap())),
{
    match (last_quiet, last_verbose) {
        (Some(q), Some(v)) => q <= v,
        (None, Some(_)) => true,
        (_, None) => false,
    }
}

/// The manifest file's name: the output file's name with `.md5` appended.
pub fn manifest_file_name(output_name: &str) -> (r: String)
    ensures
        r@ == output_name@ + ".md5"@,
{
    output_name.to_owned().concat(".md5")
}

} // verus!
