//! File URIs for UI sources given by path.
use vstd::prelude::*;
use vstd::string::StringExecFns;

verus! {

/// How the platform writes absolute paths.
#[derive(Clone, Copy, Debug, PartialEq, Eq, Structural)]
pub enum PathStyle {
    /// Paths start with `/`, as on Unix.
    Slash,
    /// Paths start with a drive letter, as on Windows.
    DriveLetter,
}

/// What comes before the path in a file URI.
pub open spec fn uri_prefix(style: PathStyle) -> Seq<char> {
    match style {
        PathStyle::Slash => "file://"@,
        PathStyle::DriveLetter => "file:///"@,
    }
}

/// The file URI of the absolute path `path`.
pub open spec fn file_uri(path: Seq<char>, style: PathStyle) -> Seq<char> {
    uri_prefix(style) + path
}

/// The `file://` URI of an absolute path: the path follows the scheme's two
/// slashes directly where paths start with `/`, and after a third slash where
/// they start with a drive letter, so that both read `file:///...`.
pub fn build_file_uri(path: &str, style: PathStyle) -> (r: String)
    ensures
        r@ == file_uri(path@, style),
{
    let mut uri = match style {
        PathStyle::Slash => String::from_str("file://"),
        PathStyle::DriveLetter => String::from_str("file:///"),
    };
    uri.append(path);
    uri
}

} // verus!
