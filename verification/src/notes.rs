use vstd::prelude::*;
use vstd::string::StringExecFns;

use crate::errors::ZkError;

verus! {

/// The default body of a fresh note: a heading derived from its title.
pub open spec fn default_body_spec(title: Seq<char>) -> Seq<char> {
    "# "@ + title
}

/// The destination of a note: its title with the markdown suffix, placed
/// directly under the workspace root. The root is always the base
/// directory and the file name is appended to it, never the reverse.
pub open spec fn note_path_spec(root: Seq<char>, title: Seq<char>) -> Seq<char> {
    root + "/"@ + title + ".md"@
}

/// The default body of a fresh note, and the seed handed to an interactive
/// editing session.
pub fn note_seed(title: &str) -> (r: String)
    ensures
        r@ == default_body_spec(title@),
{
    let mut out = String::from_str("# ");
    out.append(title);
    out
}

/// The destination path of a note under the workspace root.
pub fn note_path(root: &str, title: &str) -> (r: String)
    ensures
        r@ == note_path_spec(root@, title@),
{
    let mut out = String::from_str(root);
    out.append("/");
    out.append(title);
    out.append(".md");
    proof {
        assert(out@ =~= note_path_spec(root@, title@));
    }
    out
}

/// A note ready to be persisted: the file to create and the text to put in
/// it. Writing it overwrites an existing file of the same name silently.
#[derive(Debug)]
pub struct NoteFile {
    pub path: String,
    pub content: String,
}

/// Builds the note a `new` command persists. A non-interactive note's body
/// is the default heading verbatim; an interactive note's body is whatever
/// the editing session handed back, and an editing-session error
/// propagates unchanged, with no fallback to the default body.
pub fn plan_note(
    title: &str,
    interactive: bool,
    root: &str,
    edited: Option<Result<String, ZkError>>,
) -> (r: Result<NoteFile, ZkError>)
    requires
        interactive <==> edited is Some,
    ensures
        (!interactive ==> (r matches Ok(f) && f.path@ == note_path_spec(root@, title@)
            && f.content@ == default_body_spec(title@))),
        (edited matches Some(Ok(body)) ==> (r matches Ok(f) && f.path@ == note_path_spec(
            root@,
            title@,
        ) && f.content == body)),
        (edited matches Some(Err(e)) ==> r == Result::<NoteFile, ZkError>::Err(e)),
{
    match edited {
        None => Ok(NoteFile { path: note_path(root, title), content: note_seed(title) }),
        Some(Ok(body)) => Ok(NoteFile { path: note_path(root, title), content: body }),
        Some(Err(e)) => Err(e),
    }
}

} // verus!
