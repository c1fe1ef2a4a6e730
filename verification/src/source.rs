//! Where a scripted operator's module is found, and how a failure of the
//! interpreter is worded.

use vstd::prelude::*;

verus! {

/// Calls `format!` on two strings: the first followed by the second.
#[verifier::external_body]
fn concat(head: &str, tail: &str) -> (joined: String)
    ensures
        joined@ == head@ + tail@,
{
    format!("{}{}", head, tail)
}

/// Where the module of an operator is to be read from.
#[derive(Debug, Clone, PartialEq, Eq)]
pub enum SourceLocation {
    /// The source is a URL; its contents go to `target` first.
    Download { url: String, target: String },
    /// The source is a path on the local filesystem.
    Local { path: String },
}

/// The path under which a downloaded operator source is kept.
pub open spec fn download_target_of(
    node_id: Seq<char>,
    operator_id: Seq<char>,
    extension: Seq<char>,
) -> Seq<char> {
    "build/"@ + node_id + "/"@ + operator_id + "."@ + extension
}

/// The path `build/<node_id>/<operator_id>.<extension>`.
pub fn download_target(node_id: &str, operator_id: &str, extension: &str) -> (path: String)
    ensures
        path@ == download_target_of(node_id@, operator_id@, extension@),
{
    let path = concat("build/", node_id);
    let path = concat(path.as_str(), "/");
    let path = concat(path.as_str(), operator_id);
    let path = concat(path.as_str(), ".");
    concat(path.as_str(), extension)
}

/// True if a scheme separator, `://`, starts at position `i` of `source`.
pub open spec fn scheme_separator_at(source: Seq<char>, i: int) -> bool {
    &&& 0 <= i
    &&& i + 3 <= source.len()
    &&& source[i] == ':'
    &&& source[i + 1] == '/'
    &&& source[i + 2] == '/'
}

/// True if the source names a URL: it holds a scheme separator.
pub open spec fn is_url(source: Seq<char>) -> bool {
    exists|i: int| scheme_separator_at(source, i)
}

/// Tells whether an operator source is a URL.
pub fn source_is_url(source: &str) -> (r: bool)
    ensures
        r == is_url(source@),
{
    let len = source.unicode_len();
    if len < 3 {
        assert(forall|i: int| !scheme_separator_at(source@, i));
        return false;
    }
    let mut i: usize = 0;
    while i <= len - 3
        invariant
            len == source@.len(),
            len >= 3,
            forall|j: int| 0 <= j < i ==> !scheme_separator_at(source@, j),
        decreases len - i,
    {
        if source.get_char(i) == ':' && source.get_char(i + 1) == '/' && source.get_char(i + 2)
            == '/' {
            assert(scheme_separator_at(source@, i as int));
            return true;
        }
        i += 1;
    }
    assert(forall|j: int| !scheme_separator_at(source@, j));
    false
}

/// Decides where an operator's source is read from: a URL is downloaded
/// to the build directory of its node, anything else is a local path.
pub fn locate_source(source: String, node_id: &str, operator_id: &str, extension: &str) -> (location:
    SourceLocation)
    ensures
        is_url(source@) ==> location is Download && location->url == source && location->target@
            == download_target_of(node_id@, operator_id@, extension@),
        !is_url(source@) ==> location == (SourceLocation::Local { path: source }),
{
    if source_is_url(source.as_str()) {
        let target = download_target(node_id, operator_id, extension);
        SourceLocation::Download { url: source, target }
    } else {
        SourceLocation::Local { path: source }
    }
}

/// The text of an interpreter failure: the traceback, where there is one,
/// on the lines before the error itself.
pub fn traceback(trace: Option<String>, error: &str) -> (report: String)
    ensures
        report@ == match trace {
            Some(lines) => lines@ + "\n"@ + error@,
            None => error@,
        },
{
    match trace {
        Some(lines) => {
            let head = concat(lines.as_str(), "\n");
            concat(head.as_str(), error)
        },
        None => error.to_owned(),
    }
}

} // verus!
