use vstd::prelude::*;

verus! {

/// The file served for a directory.
pub const DIRECTORY_INDEX: &'static str = "index.html";

/// The media type that `mime_guess` gives for a path (`application/octet-stream`
/// when it knows none), without parameters.
pub uninterp spec fn guessed_content_type(path: Seq<char>) -> Seq<char>;

/// Calls `mime_guess::from_path(path).first_or_octet_stream()` and takes the
/// media type's essence (`mime::Mime::essence_str`). Trusted: the result
/// depends on the path alone; `mime_guess` reads only its extension, from a
/// table built into the crate.
#[verifier::external_body]
fn content_type(path: &str) -> (res: String)
    ensures
        res@ == guessed_content_type(path@),
{
    mime_guess::from_path(path).first_or_octet_stream().essence_str().to_string()
}

/// What a requested path turned out to be.
#[derive(PartialEq, Eq, Structural, Debug, Clone, Copy)]
pub enum EntryKind {
    Missing,
    Directory,
    File,
}

/// What to do with a requested path.
pub enum EntryPlan {
    /// Answer that the file does not exist.
    NotFound,
    /// Look up this entry inside the directory instead.
    Descend(&'static str),
    /// Send the file's bytes with this content type.
    Serve { content_type: String },
}

/// Decides how to answer a request for `path`, which is of the given kind:
/// a directory is answered with its index file, a file with its bytes and
/// the media type guessed from its name.
pub fn entry_plan(path: &str, kind: EntryKind) -> (res: EntryPlan)
    ensures
        kind == EntryKind::Missing ==> res is NotFound,
        kind == EntryKind::Directory ==> (res matches EntryPlan::Descend(name) && name@
            == DIRECTORY_INDEX@),
        kind == EntryKind::File ==> (res matches EntryPlan::Serve { content_type } && content_type@
            == guessed_content_type(path@)),
{
    match kind {
        EntryKind::Missing => EntryPlan::NotFound,
        EntryKind::Directory => EntryPlan::Descend(DIRECTORY_INDEX),
        EntryKind::File => EntryPlan::Serve { content_type: content_type(path) },
    }
}

} // verus!
