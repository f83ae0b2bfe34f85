//! File paths, as the bytes that the system knows them by.

use vstd::prelude::*;

verus! {

/// The path `part` seen from the directory `base`.
pub open spec fn path_in(base: Seq<u8>, part: Seq<u8>) -> Seq<u8> {
    if part.len() > 0 && part[0] == 0x2f {
        part
    } else if base.len() > 0 && base.last() != 0x2f {
        base.push(0x2f) + part
    } else {
        base + part
    }
}

/// The path `part` seen from the directory `base`: an absolute part stands for
/// itself, any other is set behind the base and a separator.
pub fn join_path(base: &[u8], part: &[u8]) -> (path: Vec<u8>)
    ensures
        path@ == path_in(base@, part@),
{
    let mut path: Vec<u8> = Vec::new();
    if part.len() == 0 || part[0] != 0x2f {
        path.extend_from_slice(base);
        assert(path@ =~= base@);
        if base.len() > 0 && base[base.len() - 1] != 0x2f {
            path.push(0x2f);
        }
    }
    path.extend_from_slice(part);
    assert(path@ =~= path_in(base@, part@));
    path
}

} // verus!
