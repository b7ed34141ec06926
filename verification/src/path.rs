//! Building the per-host manifest path from a base directory and a host
//! identity, with exactly one `/` separator between them.

use vstd::prelude::*;
use vstd::string::StrSliceExecFns;
use vstd::string::StringExecFns;

verus! {

/// The manifest path: the base directory, then `/` unless the base already
/// ends with one, then the host identity.
pub open spec fn spec_build_file_path(path: Seq<char>, filehost: Seq<char>) -> Seq<char> {
    if path.len() > 0 && path.last() == '/' {
        path + filehost
    } else {
        path + "/"@ + filehost
    }
}

/// The base directory with one trailing `/` removed, if it has one.
pub open spec fn spec_strip_separator(path: Seq<char>) -> Seq<char> {
    if path.len() > 0 && path.last() == '/' {
        path.drop_last()
    } else {
        path
    }
}

/// Law: the manifest path is always the base directory, exactly one `/`,
/// then the host identity, whether or not the base directory already ends
/// with a separator.
pub proof fn lemma_build_file_path_single_separator(path: Seq<char>, filehost: Seq<char>)
    ensures
        spec_build_file_path(path, filehost) == spec_strip_separator(path) + "/"@ + filehost,
{
    reveal_strlit("/");
    if path.len() > 0 && path.last() == '/' {
        assert(spec_build_file_path(path, filehost) =~= path.drop_last() + "/"@ + filehost);
    }
}

/// Appends the host identity to the base directory, inserting a `/` unless
/// the base directory already ends with one.
pub fn build_file_path(path: String, filehost: String) -> (r: String)
    ensures
        r@ == spec_build_file_path(path@, filehost@),
{
    let ghost p0: Seq<char> = path@;
    let mut fullpath: String = path;
    let n: usize = fullpath.as_str().unicode_len();
    let ends_with_sep: bool = n > 0 && fullpath.as_str().get_char(n - 1) == '/';
    if !ends_with_sep {
        fullpath.append("/");
    }
    fullpath.append(filehost.as_str());
    proof {
        assert(fullpath@ =~= spec_build_file_path(p0, filehost@));
    }
    fullpath
}

} // verus!
