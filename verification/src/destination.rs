//! Where an uploaded part is stored: the name of its file and the path of
//! that file in the upload directory.
//!
//! The name is the one the client supplied; a part without a name is stored
//! under a fixed fallback name. A supplied name is not trusted. Only a plain
//! name is joined to the directory: one that is not empty, holds no slash and
//! is neither `.` nor `..`. Any other name is refused, so every path that
//! leaves this module names a direct child of the upload directory and the
//! directory stays flat.

use vstd::prelude::*;
use vstd::string::*;

verus! {

/// The directory that uploads are stored in unless another one is configured.
pub const DEFAULT_UPLOAD_DIR: &'static str = "./uploads";

/// The name under which a part without a file name is stored.
pub const FALLBACK_FILE_NAME: &'static str = "file.bin";

/// The text of an optional string.
pub open spec fn text_of(s: Option<String>) -> Option<Seq<char>> {
    match s {
        Some(t) => Some(t@),
        None => None,
    }
}

/// Whether `name` is a plain file name: not empty, without a slash, and
/// neither `.` nor `..`. Joined to a directory, a plain name stays in that
/// directory.
pub open spec fn is_plain_name(name: Seq<char>) -> bool {
    &&& name.len() > 0
    &&& forall|i: int| 0 <= i < name.len() ==> name[i] != '/'
    &&& name != seq!['.']
    &&& name != seq!['.', '.']
}

/// The name of the file that a part asks to be stored under: the supplied
/// name, or the fallback name where none was supplied.
pub open spec fn file_name_of(supplied: Option<Seq<char>>) -> Seq<char> {
    match supplied {
        Some(name) => name,
        None => FALLBACK_FILE_NAME@,
    }
}

/// The path of the file called `name` in the directory `dir`: the directory,
/// a slash, and the name.
pub open spec fn path_in(dir: Seq<char>, name: Seq<char>) -> Seq<char> {
    dir + seq!['/'] + name
}

/// The path that a part is stored at in `dir`, or `None` where the name it
/// asks for is not plain.
pub open spec fn destination_of(dir: Seq<char>, supplied: Option<Seq<char>>) -> Option<
    Seq<char>,
> {
    if is_plain_name(file_name_of(supplied)) {
        Some(path_in(dir, file_name_of(supplied)))
    } else {
        None
    }
}

/// Whether `path` names a direct child of `dir`: a plain name joined to the
/// directory.
pub open spec fn is_direct_child(dir: Seq<char>, path: Seq<char>) -> bool {
    exists|name: Seq<char>| is_plain_name(name) && path == #[trigger] path_in(dir, name)
}

/// Whether `name` is a plain file name.
pub fn is_plain(name: &str) -> (b: bool)
    ensures
        b == is_plain_name(name@),
{
    broadcast use group_string_axioms;

    let mut seen: u8 = 0;
    let mut slash = false;
    let mut dots = true;
    for c in it: name.chars()
        invariant
            it.seq() == name@,
            seen == if it.index() < 3 {
                it.index() as int
            } else {
                3
            },
            slash <==> exists|j: int| 0 <= j < it.index() && name@[j] == '/',
            dots <==> forall|j: int| 0 <= j < it.index() ==> name@[j] == '.',
    {
        if seen < 3 {
            seen = seen + 1;
        }
        if c == '/' {
            slash = true;
        }
        if c != '.' {
            dots = false;
        }
    }
    proof {
        let one = seq!['.'];
        let two = seq!['.', '.'];
        assert(one.len() == 1 && one[0] == '.');
        assert(two.len() == 2 && two[0] == '.' && two[1] == '.');
        if dots && seen == 1 {
            assert(name@ =~= one);
        }
        if dots && seen == 2 {
            assert(name@ =~= two);
        }
    }
    seen > 0 && !slash && !(dots && seen < 3)
}

/// The name of the file that a part asks to be stored under: the name the
/// client supplied, unchanged, or `file.bin` where it supplied none.
pub fn file_name(supplied: &Option<String>) -> (name: String)
    ensures
        name@ == file_name_of(text_of(*supplied)),
{
    match supplied {
        Some(given) => given.clone(),
        None => String::from_str(FALLBACK_FILE_NAME),
    }
}

/// The path of the file called `name` in the directory `dir`.
fn join_path(dir: &str, name: &str) -> (path: String)
    ensures
        path@ == path_in(dir@, name@),
{
    let mut path = String::from_str(dir);
    path.append("/");
    path.append(name);
    proof {
        reveal_strlit("/");
    }
    path
}

/// The path that a part is stored at in `dir`, given the file name that the
/// client supplied for it, if any. A name that is not plain is refused: the
/// result is then `None`.
pub fn destination(dir: &str, supplied: &Option<String>) -> (path: Option<String>)
    ensures
        text_of(path) == destination_of(dir@, text_of(*supplied)),
{
    let name = file_name(supplied);
    if is_plain(name.as_str()) {
        Some(join_path(dir, name.as_str()))
    } else {
        None
    }
}

/// The fallback name is plain: a part without a name is never refused.
pub proof fn lemma_fallback_name_is_plain()
    ensures
        is_plain_name(FALLBACK_FILE_NAME@),
        forall|dir: Seq<char>| destination_of(dir, None) == Some(path_in(dir, FALLBACK_FILE_NAME@)),
{
    reveal_strlit("file.bin");
    let name = FALLBACK_FILE_NAME@;
    assert(name.len() == 8);
    assert(seq!['.'].len() == 1);
    assert(seq!['.', '.'].len() == 2);
}

/// Every path that a part is stored at names a direct child of the upload
/// directory.
pub proof fn lemma_destination_is_direct_child(dir: Seq<char>, supplied: Option<Seq<char>>)
    ensures
        destination_of(dir, supplied) matches Some(path) ==> is_direct_child(dir, path),
{
    if is_plain_name(file_name_of(supplied)) {
        assert(destination_of(dir, supplied) == Some(path_in(dir, file_name_of(supplied))));
    }
}

/// In one directory, two files have the same path only if they have the same
/// name: parts stored under different names never share a file.
pub proof fn lemma_path_determines_name(dir: Seq<char>, a: Seq<char>, b: Seq<char>)
    requires
        path_in(dir, a) == path_in(dir, b),
    ensures
        a == b,
{
    let prefix = dir + seq!['/'];
    let pa = path_in(dir, a);
    let pb = path_in(dir, b);
    assert(pa.subrange(prefix.len() as int, pa.len() as int) == a);
    assert(pb.subrange(prefix.len() as int, pb.len() as int) == b);
}

} // verus!
