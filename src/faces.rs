use vstd::prelude::*;

verus! {

/// The face `[start + 1, start + 2, ..., start + n]`: a ring of `n` vertices
/// stored one after another from 1-based index `start + 1` on.
pub open spec fn ring(start: nat, n: nat) -> Seq<usize> {
    Seq::new(n, |k: int| (start + k + 1) as usize)
}

/// The roof index that follows roof index `i` around a ring of `n`: the last
/// one wraps around to the first.
pub open spec fn next_index(i: nat, n: nat) -> nat {
    if i < n {
        i + 1
    } else {
        1
    }
}

/// The side wall of the edge from outline point `i` to the next one: its two
/// roof corners, then the two floor corners below them in reverse.
pub open spec fn side_face(i: nat, n: nat) -> Seq<usize> {
    seq![
        i as usize,
        next_index(i, n) as usize,
        (next_index(i, n) + n) as usize,
        (i + n) as usize,
    ]
}

/// The faces of the prism over an outline of `n` points, whose roof ring takes
/// the indices `1..=n` and whose floor ring takes `n+1..=2n`: the top, one side
/// wall per edge, and the bottom.
pub open spec fn prism_faces(n: nat) -> Seq<Seq<usize>> {
    seq![ring(0, n)] + Seq::new(n, |k: int| side_face((k + 1) as nat, n)) + seq![ring(n, n)]
}

/// Every index of every face lies in `1..=nv`.
pub open spec fn indices_in_range(faces: Seq<Seq<usize>>, nv: nat) -> bool {
    forall|f: int, j: int|
        0 <= f < faces.len() && 0 <= j < faces[f].len() ==> 1 <= #[trigger] faces[f][j] <= nv
}

/// No face names a vertex twice.
pub open spec fn faces_distinct(faces: Seq<Seq<usize>>) -> bool {
    forall|f: int| 0 <= f < faces.len() ==> (#[trigger] faces[f]).no_duplicates()
}

/// A list of faces as a sequence of index sequences.
pub open spec fn faces_view(faces: Seq<Vec<usize>>) -> Seq<Seq<usize>> {
    faces.map_values(|f: Vec<usize>| f@)
}

/// The face `[start + 1, ..., start + n]`.
pub fn ring_face(start: usize, n: usize) -> (r: Vec<usize>)
    requires
        start + n <= usize::MAX,
    ensures
        r@ == ring(start as nat, n as nat),
{
    let mut r: Vec<usize> = Vec::with_capacity(n);
    let mut k: usize = 0;
    while k < n
        invariant
            k <= n,
            start + n <= usize::MAX,
            r@ == ring(start as nat, k as nat),
        decreases n - k,
    {
        r.push(start + k + 1);
        k = k + 1;
        assert(r@ =~= ring(start as nat, k as nat));
    }
    r
}

/// A ring of distinct indices, each in `start + 1..=start + n`.
pub proof fn lemma_ring_well_formed(start: nat, n: nat)
    requires
        start + n <= usize::MAX,
    ensures
        ring(start, n).len() == n,
        ring(start, n).no_duplicates(),
        forall|j: int| 0 <= j < n ==> start + 1 <= #[trigger] ring(start, n)[j] <= start + n,
{
}

} // verus!
