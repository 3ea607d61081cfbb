//! Stable descending ordering by an integer key, computed as a permutation
//! of positions.
use vstd::prelude::*;

verus! {

/// Position `a` goes before position `b`: a larger key first, and on equal
/// keys the earlier position first.
pub open spec fn antes(claves: Seq<u64>, a: int, b: int) -> bool {
    claves[a] > claves[b] || (claves[a] == claves[b] && a < b)
}

/// `p` lists each position of `0..n` exactly once.
pub open spec fn es_permutacion(p: Seq<usize>, n: int) -> bool {
    &&& p.len() == n
    &&& forall|k: int| 0 <= k < p.len() ==> #[trigger] p[k] < n
    &&& forall|k: int, l: int| 0 <= k < l < p.len() ==> p[k] != p[l]
}

/// `p` is the stable descending order of `claves`.
pub open spec fn orden_estable(claves: Seq<u64>, p: Seq<usize>) -> bool {
    &&& es_permutacion(p, claves.len() as int)
    &&& forall|k: int, l: int|
        0 <= k < l < p.len() ==> antes(claves, #[trigger] p[k] as int, #[trigger] p[l] as int)
}

/// The positions of `claves` in stable descending order of key.
pub fn ordenar_posiciones(claves: &Vec<u64>) -> (p: Vec<usize>)
    ensures
        orden_estable(claves@, p@),
{
    let mut p: Vec<usize> = Vec::new();
    let mut i: usize = 0;
    while i < claves.len()
        invariant
            0 <= i <= claves@.len(),
            p@.len() == i,
            forall|k: int| 0 <= k < p@.len() ==> #[trigger] p@[k] < i,
            forall|k: int, l: int| 0 <= k < l < p@.len() ==> p@[k] != p@[l],
            forall|k: int, l: int|
                0 <= k < l < p@.len() ==> antes(
                    claves@,
                    #[trigger] p@[k] as int,
                    #[trigger] p@[l] as int,
                ),
        decreases claves@.len() - i,
    {
        let clave = claves[i];
        let mut pos: usize = 0;
        while pos < p.len() && claves[p[pos]] >= clave
            invariant
                0 <= pos <= p@.len(),
                p@.len() == i,
                i < claves@.len(),
                clave == claves@[i as int],
                forall|k: int| 0 <= k < p@.len() ==> #[trigger] p@[k] < i,
                forall|k: int| 0 <= k < pos ==> claves@[#[trigger] p@[k] as int] >= clave,
            decreases p@.len() - pos,
        {
            pos = pos + 1;
        }
        let ghost viejo = p@;
        p.insert(pos, i);
        proof {
            assert forall|k: int, l: int| 0 <= k < l < p@.len() implies antes(
                claves@,
                #[trigger] p@[k] as int,
                #[trigger] p@[l] as int,
            ) by {
                if l < pos {
                    assert(p@[k] == viejo[k] && p@[l] == viejo[l]);
                } else if l == pos {
                    assert(p@[k] == viejo[k]);
                } else if k < pos {
                    assert(p@[k] == viejo[k] && p@[l] == viejo[l - 1]);
                } else if k == pos {
                    assert(p@[l] == viejo[l - 1]);
                    assert(claves@[viejo[pos as int] as int] < clave);
                    if l - 1 > pos {
                        assert(antes(claves@, viejo[pos as int] as int, viejo[l - 1] as int));
                    }
                } else {
                    assert(p@[k] == viejo[k - 1] && p@[l] == viejo[l - 1]);
                }
            }
            assert forall|k: int, l: int| 0 <= k < l < p@.len() implies p@[k] != p@[l] by {
                if l < pos {
                    assert(p@[k] == viejo[k] && p@[l] == viejo[l]);
                } else if l == pos {
                    assert(p@[k] == viejo[k]);
                } else if k < pos {
                    assert(p@[k] == viejo[k] && p@[l] == viejo[l - 1]);
                } else if k == pos {
                    assert(p@[l] == viejo[l - 1]);
                } else {
                    assert(p@[k] == viejo[k - 1] && p@[l] == viejo[l - 1]);
                }
            }
            assert forall|k: int| 0 <= k < p@.len() implies #[trigger] p@[k] < i + 1 by {
                if k < pos {
                    assert(p@[k] == viejo[k]);
                } else if k > pos {
                    assert(p@[k] == viejo[k - 1]);
                }
            }
        }
        i = i + 1;
    }
    p
}

} // verus!
