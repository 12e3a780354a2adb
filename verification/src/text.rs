//! The two operations on text that the rest of the crate needs: testing how a
//! request path ends, and naming a file inside a directory.

use vstd::prelude::*;
use vstd::string::{StrSliceExecFns, StringExecFns};

verus! {

/// The name of `file` inside `dir`: the two are set side by side, with a `/`
/// between them unless `dir` is empty or ends in one already.
pub open spec fn joined(dir: Seq<char>, file: Seq<char>) -> Seq<char> {
    if dir.len() == 0 || dir.last() == '/' {
        dir + file
    } else {
        dir + seq!['/'] + file
    }
}

/// Whether `text` ends with `suffix`.
pub fn ends_with(text: &str, suffix: &str) -> (ends: bool)
    ensures
        ends == suffix@.is_suffix_of(text@),
{
    let text_len: usize = text.unicode_len();
    let suffix_len: usize = suffix.unicode_len();
    if suffix_len > text_len {
        return false;
    }
    let tail = text.substring_char(text_len - suffix_len, text_len);
    let tail_owned = String::from_str(tail);
    let suffix_owned = String::from_str(suffix);
    tail_owned == suffix_owned
}

/// Builds the name of `file` inside `dir`.
pub fn join_path(dir: &str, file: &str) -> (path: String)
    ensures
        path@ == joined(dir@, file@),
{
    let dir_len: usize = dir.unicode_len();
    let mut path = String::from_str(dir);
    if dir_len > 0 && dir.get_char(dir_len - 1) != '/' {
        proof {
            reveal_strlit("/");
            assert("/"@ == seq!['/']);
        }
        path.append("/");
    }
    path.append(file);
    path
}

} // verus!
