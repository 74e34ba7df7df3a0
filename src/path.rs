use vstd::prelude::*;

verus! {

/// Whether joining `leaf` onto `base` needs a separator in between: only
/// when `base` is non-empty and does not already end in one.
pub open spec fn needs_separator(base: Seq<char>) -> bool {
    base.len() > 0 && base.last() != '/'
}

/// The file that backs a document at `path`: the marker file inside it when
/// the document is a folder, otherwise the path itself.
pub open spec fn resolved_path(path: Seq<char>, is_dir: bool, marker: Seq<char>) -> Seq<char> {
    if !is_dir {
        path
    } else if needs_separator(path) {
        path + seq!['/'] + marker
    } else {
        path + marker
    }
}

/// Resolves the path of a document to the file that holds its content.
///
/// `is_dir` tells whether `path` names a directory, i.e. a folder-shaped
/// document, in which case `marker` is the name of the file inside it.
pub fn resolve_path(path: &str, is_dir: bool, marker: &str) -> (r: String)
    ensures
        r@ == resolved_path(path@, is_dir, marker@),
{
    let mut r = path.to_owned();
    if !is_dir {
        return r;
    }
    let n = path.unicode_len();
    if n > 0 && path.get_char(n - 1) != '/' {
        proof {
            reveal_strlit("/");
        }
        r.append("/");
    }
    r.append(marker);
    r
}

} // verus!
