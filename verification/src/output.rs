//! Where the animation is written.

use vstd::prelude::*;

verus! {

/// What `std::path::PathBuf::set_extension` makes of a path, by the path
/// rules of the platform that the library is built for: the path with the
/// extension of its last component replaced by `extension`, or with
/// `extension` added where the component has none.
pub uninterp spec fn path_with_extension(path: Seq<char>, extension: Seq<char>) -> Seq<char>;

/// An extension may not hold a path separator.
pub open spec fn separator_free(extension: Seq<char>) -> bool {
    forall|i: int| 0 <= i < extension.len() ==> extension[i] != '/' && extension[i] != '\\'
}

/// The output path of a conversion: beside the input and under its name, with
/// the extension `gif`, whenever the input is a regular file; the path that
/// the caller asked for only when it is not.
pub open spec fn resolved_output(
    input: Seq<char>,
    input_is_file: bool,
    requested: Seq<char>,
) -> Seq<char> {
    if input_is_file {
        path_with_extension(input, "gif"@)
    } else {
        requested
    }
}

/// `std::path::PathBuf::set_extension` on the given path. The path goes in
/// and comes out as text. The standard library panics on an extension that
/// holds a path separator, so such an extension is not accepted.
#[verifier::external_body]
fn replace_extension(path: &str, extension: &str) -> (replaced: String)
    requires
        separator_free(extension@),
    ensures
        replaced@ == path_with_extension(path@, extension@),
{
    let mut replaced = std::path::PathBuf::from(path);
    replaced.set_extension(extension);
    replaced.to_string_lossy().into_owned()
}

/// Settles the output path of a conversion. An input that is a regular file
/// decides it alone: the path that the caller asked for is then dropped.
pub fn resolve_output_path(input: &str, input_is_file: bool, requested: String) -> (path: String)
    ensures
        path@ == resolved_output(input@, input_is_file, requested@),
{
    if input_is_file {
        proof {
            reveal_strlit("gif");
        }
        replace_extension(input, "gif")
    } else {
        requested
    }
}

/// For an input that is a regular file the output path does not depend on
/// the path that the caller asked for.
pub proof fn regular_input_decides_the_output(
    input: Seq<char>,
    requested: Seq<char>,
    other: Seq<char>,
)
    ensures
        resolved_output(input, true, requested) == resolved_output(input, true, other),
        resolved_output(input, false, requested) == requested,
{
}

} // verus!
