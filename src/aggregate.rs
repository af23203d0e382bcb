use vstd::prelude::*;
use vstd::string::*;
use crate::orchestrate::Invocation;
use crate::text::{join_path, join_spec};

verus! {

/// A path whose file name has the extension `o`: it ends in `.o` and the dot
/// does not begin the file name.
pub open spec fn is_object_file(p: Seq<char>) -> bool {
    &&& p.len() >= 3
    &&& p[p.len() - 1] == 'o'
    &&& p[p.len() - 2] == '.'
    &&& p[p.len() - 3] != '/'
}

/// The object files among `entries`, in their order.
pub open spec fn objects_spec(entries: Seq<String>) -> Seq<String>
    decreases entries.len(),
{
    if entries.len() == 0 {
        Seq::empty()
    } else {
        let head = objects_spec(entries.drop_last());
        if is_object_file(entries.last()@) {
            head.push(entries.last())
        } else {
            head
        }
    }
}

/// Tests one path for the object-file extension.
pub fn has_object_extension(p: &str) -> (r: bool)
    ensures
        r == is_object_file(p@),
{
    let n = p.unicode_len();
    n >= 3 && p.get_char(n - 1) == 'o' && p.get_char(n - 2) == '.' && p.get_char(n - 3) != '/'
}

/// The object files among the entries of the object directory.
pub fn select_objects(entries: &Vec<String>) -> (r: Vec<String>)
    ensures
        r@ == objects_spec(entries@),
{
    let mut r: Vec<String> = Vec::new();
    let mut i: usize = 0;
    while i < entries.len()
        invariant
            i <= entries.len(),
            r@ == objects_spec(entries@.subrange(0, i as int)),
        decreases entries.len() - i,
    {
        assert(entries@.subrange(0, i as int + 1).drop_last() =~= entries@.subrange(0, i as int));
        if has_object_extension(entries[i].as_str()) {
            r.push(entries[i].clone());
        }
        i += 1;
    }
    assert(entries@.subrange(0, entries.len() as int) =~= entries@);
    r
}

/// The object directory held no object file: there is nothing to archive,
/// and the build must not go on as if there were.
#[derive(Debug, Clone, Copy, PartialEq, Eq, Structural)]
pub struct NoObjects;

/// The static archive the objects are collected into.
pub fn object_archive_path(obj_dir: &str) -> (r: String)
    ensures
        r@ == join_spec(obj_dir@, "libbuilder-c.a"@),
{
    join_path(obj_dir, "libbuilder-c.a")
}

/// The command that rebuilds the archive from the objects (`ar rcs archive
/// objects...`); an error when there are no objects.
pub fn archive_command(archive: &str, objects: &Vec<String>) -> (r: Result<Invocation, NoObjects>)
    ensures
        objects@.len() == 0 <==> r.is_err(),
        r.is_ok() ==> ({
            let c = r->Ok_0;
            &&& c.program@ == "ar"@
            &&& c.args@.len() == objects@.len() + 2
            &&& c.args@[0]@ == "rcs"@
            &&& c.args@[1]@ == archive@
            &&& forall|k: int| 0 <= k < objects@.len() ==> c.args@[k + 2] == objects@[k]
            &&& c.workdir.is_none()
            &&& c.path_override.is_none()
        }),
{
    if objects.len() == 0 {
        return Err(NoObjects);
    }
    let mut args: Vec<String> = Vec::new();
    args.push(String::from_str("rcs"));
    args.push(String::from_str(archive));
    let mut i: usize = 0;
    while i < objects.len()
        invariant
            i <= objects.len(),
            args@.len() == i + 2,
            args@[0]@ == "rcs"@,
            args@[1]@ == archive@,
            forall|k: int| 0 <= k < i ==> args@[k + 2] == objects@[k],
        decreases objects.len() - i,
    {
        args.push(objects[i].clone());
        i += 1;
    }
    Ok(Invocation { program: String::from_str("ar"), args, workdir: None, path_override: None })
}

} // verus!
