//! The decisions made when a project is set up on disk.

use vstd::prelude::*;

use crate::error::Error;

verus! {

/// Whether `c` may not appear in a file name.
pub open spec fn reserved_char(c: char) -> bool {
    c == '/' || c == '\\' || c == ':' || c == '*' || c == '?' || c == '"' || c == '<' || c == '>'
        || c == '|' || c == '\0'
}

/// Whether `name` can serve as a project's folder name: not empty, and free
/// of path separators and reserved characters.
pub open spec fn valid_project_name(name: Seq<char>) -> bool {
    name.len() > 0 && forall|i: int| 0 <= i < name.len() ==> !reserved_char(#[trigger] name[i])
}

fn is_reserved_char(c: char) -> (r: bool)
    ensures
        r == reserved_char(c),
{
    c == '/' || c == '\\' || c == ':' || c == '*' || c == '?' || c == '"' || c == '<' || c == '>'
        || c == '|' || c == '\0'
}

/// Accepts a project name that is safe as a folder name, and refuses any
/// other with `InvalidProjectName`.
pub fn validate_project_name(name: &str) -> (r: Result<(), Error>)
    ensures
        r is Ok <==> valid_project_name(name@),
        r matches Err(e) ==> e matches Error::InvalidProjectName(n) && n@ == name@,
{
    let len = name.unicode_len();
    let mut i: usize = 0;
    let mut ok = len > 0;
    while i < len
        invariant
            len == name@.len(),
            0 <= i <= len,
            ok == (len > 0 && forall|j: int| 0 <= j < i ==> !reserved_char(#[trigger] name@[j])),
        decreases len - i,
    {
        if is_reserved_char(name.get_char(i)) {
            ok = false;
        }
        i = i + 1;
    }
    if ok {
        Ok(())
    } else {
        Err(Error::InvalidProjectName(String::from_str(name)))
    }
}

/// The failure of a project folder `root` that already holds `count` entries.
pub fn dir_not_empty_err(root: &str, count: usize) -> (r: Result<(), Error>)
    ensures
        r matches Err(Error::FolderNotEmpty(p, n)) && p@ == root@ && n == count,
{
    Err(Error::FolderNotEmpty(String::from_str(root), count))
}

/// Accepts a project folder `root` that holds no entries, and refuses one
/// holding `count > 0` entries with `FolderNotEmpty(root, count)`.
pub fn check_project_folder(root: &str, count: usize) -> (r: Result<(), Error>)
    ensures
        r is Ok <==> count == 0,
        r matches Err(e) ==> e matches Error::FolderNotEmpty(p, n) && p@ == root@ && n == count,
{
    if count == 0 {
        Ok(())
    } else {
        dir_not_empty_err(root, count)
    }
}

} // verus!
