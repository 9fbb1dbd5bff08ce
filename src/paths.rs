//! The local files of a submission: their names, and the list of parts an
//! upload is made of.
use vstd::prelude::*;
use vstd::string::StringExecFns;

use crate::error::ClientError;

verus! {

/// Where the final component of `p[..i]` starts: just after its last `/`,
/// or at 0.
pub open spec fn component_start(p: Seq<char>, i: int) -> int
    decreases i,
{
    if i <= 0 {
        0
    } else if p[i - 1] == '/' {
        i
    } else {
        component_start(p, i - 1)
    }
}

/// The final component of a path: what follows its last `/`.
pub open spec fn final_component(p: Seq<char>) -> Seq<char> {
    p.subrange(component_start(p, p.len() as int), p.len() as int)
}

/// The name of the file a path leads to: its final component, unless that
/// is empty (an empty path, or one that ends in a separator), `.` or `..`.
pub open spec fn file_name(p: Seq<char>) -> Option<Seq<char>> {
    let c = final_component(p);
    if c.len() == 0 || c == seq!['.'] || c == seq!['.', '.'] {
        None
    } else {
        Some(c)
    }
}

proof fn lemma_component_start_bounds(p: Seq<char>, i: int)
    requires
        0 <= i <= p.len(),
    ensures
        0 <= component_start(p, i) <= i,
    decreases i,
{
    if i > 0 && p[i - 1] != '/' {
        lemma_component_start_bounds(p, i - 1);
    }
}

/// The name of the file that `path` leads to, if it names one.
pub fn file_name_of(path: &str) -> (r: Option<String>)
    ensures
        match file_name(path@) {
            Some(n) => r is Some && r->Some_0@ == n,
            None => r is None,
        },
{
    let len = path.unicode_len();
    let mut start = len;
    while start > 0 && path.get_char(start - 1) != '/'
        invariant
            0 <= start <= len,
            len == path@.len(),
            component_start(path@, len as int) == component_start(path@, start as int),
        decreases start,
    {
        start -= 1;
    }
    proof {
        lemma_component_start_bounds(path@, len as int);
    }
    let name = path.substring_char(start, len);
    let n = name.unicode_len();
    if n == 0 {
        return None;
    }
    if n <= 2 && name.get_char(0) == '.' && (n == 1 || name.get_char(1) == '.') {
        assert(name@ =~= seq!['.'] || name@ =~= seq!['.', '.']);
        return None;
    }
    assert(name@ != seq!['.']);
    assert(name@ != seq!['.', '.']) by {
        if name@ == seq!['.', '.'] {
            assert(name@[1] == '.');
        }
    }
    Some(String::from_str(name))
}

/// One file of an upload: the path it is read from and the name it is sent
/// under.
pub struct FilePart {
    pub path: String,
    pub file_name: String,
}

/// Every path of `files` names a file.
pub open spec fn all_named(files: Seq<String>) -> bool {
    forall|i: int| 0 <= i < files.len() ==> (#[trigger] file_name(files[i]@)) is Some
}

/// `k` is the first position of `files` whose path names no file.
pub open spec fn first_nameless(files: Seq<String>, k: int) -> bool {
    &&& 0 <= k < files.len()
    &&& file_name(files[k]@) is None
    &&& forall|j: int| 0 <= j < k ==> (#[trigger] file_name(files[j]@)) is Some
}

/// Turns the paths of a submission into its upload parts, in order. The
/// whole list is refused, with the first path that names no file, if any
/// path names none.
pub fn plan_parts(files: &Vec<String>) -> (r: Result<Vec<FilePart>, ClientError>)
    ensures
        match r {
            Ok(parts) => {
                &&& all_named(files@)
                &&& parts@.len() == files@.len()
                &&& forall|i: int|
                    0 <= i < files@.len() ==> {
                        &&& (#[trigger] parts@[i]).path@ == files@[i]@
                        &&& file_name(files@[i]@) == Some(parts@[i].file_name@)
                    }
            },
            Err(e) => exists|k: int|
                first_nameless(files@, k) && e is FileError && (#[trigger] files@[k])@
                    == e->FileError_0@,
        },
{
    let mut parts: Vec<FilePart> = Vec::new();
    let mut i: usize = 0;
    while i < files.len()
        invariant
            0 <= i <= files@.len(),
            parts@.len() == i,
            forall|j: int| 0 <= j < i ==> (#[trigger] file_name(files@[j]@)) is Some,
            forall|j: int|
                0 <= j < i ==> {
                    &&& (#[trigger] parts@[j]).path@ == files@[j]@
                    &&& file_name(files@[j]@) == Some(parts@[j].file_name@)
                },
        decreases files@.len() - i,
    {
        match file_name_of(files[i].as_str()) {
            Some(name) => {
                parts.push(FilePart { path: files[i].clone(), file_name: name });
            },
            None => {
                assert(first_nameless(files@, i as int));
                return Err(ClientError::FileError(files[i].clone()));
            },
        }
        i += 1;
    }
    Ok(parts)
}

} // verus!
