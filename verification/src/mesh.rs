//! Triangle-fan indexing of mesh faces.
//!
//! A mesh file lists a face as a cycle of vertex indices, numbered from
//! one.  The renderer triangulates each face as a fan anchored at the
//! face's first vertex and works with zero-based indices from then on.
//! Reading the file and parsing vertex coordinates stay with the importer;
//! the index arithmetic is verified here.

use vstd::prelude::*;

verus! {

/// A face with `n >= 3` one-based vertex indices becomes `n - 2` triangles:
/// the `k`-th keeps the first vertex and joins it with the `k+1`-st and
/// `k+2`-nd, all made zero-based.  Shorter faces are degenerate and yield
/// no triangles.
pub open spec fn fan_of(face: Seq<usize>) -> Seq<(usize, usize, usize)> {
    if face.len() < 3 {
        Seq::empty()
    } else {
        Seq::new(
            (face.len() - 2) as nat,
            |k: int|
                (
                    (face[0] - 1) as usize,
                    (face[k + 1] - 1) as usize,
                    (face[k + 2] - 1) as usize,
                ),
        )
    }
}

/// Fan-triangulates one face of a mesh file.
///
/// The indices are one-based as the file format writes them; an index of
/// zero is malformed and the importer rejects such a face before calling.
pub fn fan_triangles(face: &Vec<usize>) -> (r: Vec<(usize, usize, usize)>)
    requires
        forall|k: int| 0 <= k < face@.len() ==> face@[k] >= 1,
    ensures
        r@ == fan_of(face@),
{
    let mut r: Vec<(usize, usize, usize)> = Vec::new();
    if face.len() < 3 {
        proof {
            assert(r@ =~= fan_of(face@));
        }
        return r;
    }
    let anchor: usize = face[0] - 1;
    let mut k: usize = 0;
    while k < face.len() - 2
        invariant
            face@.len() >= 3,
            forall|j: int| 0 <= j < face@.len() ==> face@[j] >= 1,
            anchor == face@[0] - 1,
            k <= face@.len() - 2,
            r@.len() == k,
            forall|j: int| 0 <= j < k ==> #[trigger] r@[j] == fan_of(face@)[j],
        decreases face.len() - k,
    {
        r.push((anchor, face[k + 1] - 1, face[k + 2] - 1));
        k = k + 1;
    }
    proof {
        assert(r@ =~= fan_of(face@));
    }
    r
}

} // verus!
