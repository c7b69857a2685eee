//! Artifact extraction plan: where each entry of a retrieved archive is
//! written.
//!
//! Every archive entry lands at its archive-relative path under the working
//! directory, overwriting what is there; the entry's parent directory is
//! created first when missing.

use vstd::prelude::*;

verus! {

use vstd::string::*;
use crate::bytes::clone_bytes;

/// One entry of the retrieved archive: its path relative to the archive root
/// and its bytes.
pub struct ArchiveEntry {
    pub rel_path: String,
    pub data: Vec<u8>,
}

/// One write of the extraction: create `parent_dir` (and what leads to it)
/// if missing, then write `data` at `file_path`, overwriting.
pub struct WriteOp {
    pub parent_dir: String,
    pub file_path: String,
    pub data: Vec<u8>,
}

/// Where an entry lands: its relative path under the working directory.
pub open spec fn joined_path(workdir: Seq<char>, rel: Seq<char>) -> Seq<char> {
    workdir + "/"@ + rel
}

/// The characters before the last `/` of a path; empty when it has none.
pub open spec fn parent_spec(p: Seq<char>) -> Seq<char>
    decreases p.len(),
{
    if p.len() == 0 {
        Seq::empty()
    } else if p.last() == '/' {
        p.drop_last()
    } else {
        parent_spec(p.drop_last())
    }
}

/// The parent directory of a path.
pub fn parent_of(p: &String) -> (r: String)
    ensures
        r@ == parent_spec(p@),
{
    let n = p.as_str().unicode_len();
    proof {
        assert(p@.take(n as int) =~= p@);
    }
    let mut k: usize = n;
    while k > 0
        invariant
            k <= n == p@.len(),
            parent_spec(p@) == parent_spec(p@.take(k as int)),
        decreases k,
    {
        proof {
            assert(p@.take(k as int).drop_last() =~= p@.take(k as int - 1));
            assert(p@.take(k as int).last() == p@[k as int - 1]);
        }
        if p.as_str().get_char(k - 1) == '/' {
            let r = p.as_str().substring_char(0, k - 1).to_owned();
            proof {
                assert(r@ =~= p@.take(k as int - 1));
            }
            return r;
        }
        k = k - 1;
    }
    proof {
        assert(p@.take(0) =~= Seq::<char>::empty());
    }
    String::new()
}

/// The write operations that extract an archive into the working directory:
/// one per entry, in archive order, each writing the entry's bytes at its
/// archive-relative path under the working directory, with the parent
/// directory that must exist first.
pub fn extraction_plan(workdir: &String, entries: &Vec<ArchiveEntry>) -> (r: Vec<WriteOp>)
    ensures
        r@.len() == entries@.len(),
        forall|i: int|
            0 <= i < entries@.len() ==> {
                &&& (#[trigger] r@[i]).file_path@ == joined_path(workdir@, entries@[i].rel_path@)
                &&& r@[i].parent_dir@ == parent_spec(joined_path(workdir@, entries@[i].rel_path@))
                &&& r@[i].data@ == entries@[i].data@
            },
{
    let mut ops: Vec<WriteOp> = Vec::new();
    let mut i: usize = 0;
    while i < entries.len()
        invariant
            i <= entries.len(),
            ops@.len() == i,
            forall|j: int|
                0 <= j < i ==> {
                    &&& (#[trigger] ops@[j]).file_path@ == joined_path(
                        workdir@,
                        entries@[j].rel_path@,
                    )
                    &&& ops@[j].parent_dir@ == parent_spec(
                        joined_path(workdir@, entries@[j].rel_path@),
                    )
                    &&& ops@[j].data@ == entries@[j].data@
                },
        decreases entries.len() - i,
    {
        let e: &ArchiveEntry = &entries[i];
        let mut file_path = String::new();
        file_path.append(workdir.as_str());
        file_path.append("/");
        file_path.append(e.rel_path.as_str());
        let parent_dir = parent_of(&file_path);
        let data = clone_bytes(&e.data);
        ops.push(WriteOp { parent_dir, file_path, data });
        i = i + 1;
    }
    ops
}

} // verus!
