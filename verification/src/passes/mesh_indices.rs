//! The index list of a scene's inline meshes, as the forward pass uploads it.
//!
//! The vertices of all meshes are concatenated; each mesh's indices are
//! shifted by the number of vertices before it, and a mesh without indices
//! contributes its vertices in order. When no mesh contributes an index, the
//! vertices are drawn in order.

use vstd::prelude::*;

verus! {

/// The part of an inline mesh the index list depends on
pub struct InlineMesh {
    pub vertex_count: u32,
    pub indices: Option<Vec<u32>>,
}

/// The indices a mesh contributes before shifting: its own, or its vertices in order.
pub open spec fn own_indices(m: InlineMesh) -> Seq<int> {
    match m.indices {
        Some(v) => v@.map_values(|x: u32| x as int),
        None => Seq::new(m.vertex_count as nat, |i: int| i),
    }
}

/// The number of vertices of all the meshes.
pub open spec fn vertex_total(s: Seq<InlineMesh>) -> int
    decreases s.len(),
{
    if s.len() == 0 {
        0
    } else {
        vertex_total(s.drop_last()) + s.last().vertex_count
    }
}

/// The indices of all the meshes, each shifted by the vertices before its mesh.
pub open spec fn merged_indices(s: Seq<InlineMesh>) -> Seq<int>
    decreases s.len(),
{
    if s.len() == 0 {
        Seq::empty()
    } else {
        let base = vertex_total(s.drop_last());
        merged_indices(s.drop_last()) + own_indices(s.last()).map_values(|x: int| x + base)
    }
}

/// The index list uploaded for the meshes: the merged indices, or all the
/// vertices in order when there are none.
pub open spec fn scene_indices(s: Seq<InlineMesh>) -> Seq<int> {
    if merged_indices(s).len() == 0 {
        Seq::new(vertex_total(s) as nat, |i: int| i)
    } else {
        merged_indices(s)
    }
}

/// The vertex total and every shifted index fit in 32 bits.
pub open spec fn indices_fit(s: Seq<InlineMesh>) -> bool {
    &&& vertex_total(s) <= u32::MAX
    &&& forall|i: int| 0 <= i < merged_indices(s).len() ==> #[trigger] merged_indices(s)[i] <= u32::MAX
}

/// Vertex totals and merged indices of a prefix of the meshes are a prefix of those of all of them.
proof fn lemma_prefix(s: Seq<InlineMesh>, k: int)
    requires
        0 <= k <= s.len(),
    ensures
        0 <= vertex_total(s.take(k)) <= vertex_total(s),
        merged_indices(s.take(k)).len() <= merged_indices(s).len(),
        merged_indices(s).take(merged_indices(s.take(k)).len() as int) == merged_indices(s.take(k)),
    decreases s.len(),
{
    if k == s.len() {
        assert(s.take(k) =~= s);
        assert(merged_indices(s).take(merged_indices(s).len() as int) =~= merged_indices(s));
        lemma_total_nonnegative(s);
    } else {
        let d = s.drop_last();
        assert(s.take(k) =~= d.take(k));
        lemma_prefix(d, k);
        lemma_total_nonnegative(d);
        let m = merged_indices(d);
        let p = merged_indices(d.take(k));
        assert(merged_indices(s).take(p.len() as int) =~= m.take(p.len() as int));
    }
}

/// The vertex total is never negative.
proof fn lemma_total_nonnegative(s: Seq<InlineMesh>)
    ensures
        vertex_total(s) >= 0,
    decreases s.len(),
{
    if s.len() > 0 {
        lemma_total_nonnegative(s.drop_last());
    }
}

/// Every index of each mesh refers to one of its own vertices.
pub open spec fn indices_in_range(s: Seq<InlineMesh>) -> bool {
    forall|k: int, j: int| 0 <= k < s.len() && 0 <= j < own_indices(s[k]).len()
        ==> #[trigger] own_indices(s[k])[j] < s[k].vertex_count
}

/// When every mesh's indices refer to its own vertices, every index of the
/// uploaded list refers to a vertex of the concatenated vertex list.
pub proof fn lemma_indices_address_vertices(s: Seq<InlineMesh>)
    requires
        indices_in_range(s),
    ensures
        forall|i: int| 0 <= i < scene_indices(s).len() ==> 0 <= #[trigger] scene_indices(s)[i] < vertex_total(s),
{
    lemma_merged_in_range(s);
    lemma_total_nonnegative(s);
    if merged_indices(s).len() == 0 {
        assert forall|i: int| 0 <= i < scene_indices(s).len() implies 0 <= #[trigger] scene_indices(s)[i] < vertex_total(s) by {
            assert(scene_indices(s)[i] == i);
        }
    }
}

/// The merged indices lie in `[0, vertex_total)` when each mesh's indices lie in its own range.
proof fn lemma_merged_in_range(s: Seq<InlineMesh>)
    requires
        indices_in_range(s),
    ensures
        forall|i: int| 0 <= i < merged_indices(s).len() ==> 0 <= #[trigger] merged_indices(s)[i] < vertex_total(s),
    decreases s.len(),
{
    if s.len() > 0 {
        let d = s.drop_last();
        assert(indices_in_range(d)) by {
            assert forall|k: int, j: int| 0 <= k < d.len() && 0 <= j < own_indices(d[k]).len()
                implies #[trigger] own_indices(d[k])[j] < d[k].vertex_count by {
                assert(d[k] == s[k]);
            }
        }
        lemma_merged_in_range(d);
        lemma_total_nonnegative(d);
        let base = vertex_total(d);
        let own = own_indices(s.last());
        assert forall|j: int| 0 <= j < own.len() implies 0 <= #[trigger] own[j] < s.last().vertex_count by {
            assert(s.last() == s[s.len() - 1]);
            assert(own_indices(s[s.len() - 1])[j] < s[s.len() - 1].vertex_count);
        }
        assert forall|i: int| 0 <= i < merged_indices(s).len() implies 0 <= #[trigger] merged_indices(s)[i] < vertex_total(s) by {
            if i < merged_indices(d).len() {
                assert(merged_indices(s)[i] == merged_indices(d)[i]);
            } else {
                let j = i - merged_indices(d).len();
                assert(merged_indices(s)[i] == own[j] + base);
            }
        }
    }
}

/// The number of vertices of all the inline meshes
pub fn total_vertex_count(meshes: &Vec<InlineMesh>) -> (n: u32)
    requires
        vertex_total(meshes@) <= u32::MAX,
    ensures
        n == vertex_total(meshes@),
{
    let mut total: u32 = 0;
    let mut k: usize = 0;
    proof {
        assert(meshes@.take(0) =~= Seq::<InlineMesh>::empty());
    }
    while k < meshes.len()
        invariant
            k <= meshes@.len(),
            vertex_total(meshes@) <= u32::MAX,
            total as int == vertex_total(meshes@.take(k as int)),
        decreases meshes@.len() - k,
    {
        let ghost prefix = meshes@.take(k as int + 1);
        proof {
            assert(prefix.drop_last() =~= meshes@.take(k as int));
            assert(prefix.last() == meshes@[k as int]);
            lemma_prefix(meshes@, k as int + 1);
        }
        total = total + meshes[k].vertex_count;
        k += 1;
    }
    proof {
        assert(meshes@.take(meshes@.len() as int) =~= meshes@);
    }
    total
}

/// The index list the forward pass uploads for the given inline meshes
pub fn merge_mesh_indices(meshes: &Vec<InlineMesh>) -> (r: Vec<u32>)
    requires
        indices_fit(meshes@),
    ensures
        r@.map_values(|x: u32| x as int) == scene_indices(meshes@),
{
    let mut out: Vec<u32> = Vec::new();
    let mut offset: u32 = 0;
    let mut k: usize = 0;
    proof {
        assert(meshes@.take(0) =~= Seq::<InlineMesh>::empty());
        assert(out@.map_values(|x: u32| x as int) =~= merged_indices(meshes@.take(0)));
    }
    while k < meshes.len()
        invariant
            k <= meshes@.len(),
            indices_fit(meshes@),
            offset as int == vertex_total(meshes@.take(k as int)),
            out@.map_values(|x: u32| x as int) == merged_indices(meshes@.take(k as int)),
        decreases meshes@.len() - k,
    {
        let ghost before = out@;
        let ghost prefix = meshes@.take(k as int + 1);
        proof {
            assert(prefix.drop_last() =~= meshes@.take(k as int));
            assert(prefix.last() == meshes@[k as int]);
            lemma_prefix(meshes@, k as int + 1);
        }
        let m = &meshes[k];
        let ghost shifted = own_indices(*m).map_values(|x: int| x + offset as int);
        assert(merged_indices(prefix) == merged_indices(meshes@.take(k as int)) + shifted);
        match &m.indices {
            Some(idx) => {
                let mut j: usize = 0;
                while j < idx.len()
                    invariant
                        j <= idx@.len(),
                        own_indices(*m) == idx@.map_values(|x: u32| x as int),
                        shifted == own_indices(*m).map_values(|x: int| x + offset as int),
                        merged_indices(prefix) == before.map_values(|x: u32| x as int) + shifted,
                        merged_indices(prefix).len() <= merged_indices(meshes@).len(),
                        merged_indices(meshes@).take(merged_indices(prefix).len() as int) == merged_indices(prefix),
                        indices_fit(meshes@),
                        out@.len() == before.len() + j,
                        out@.take(before.len() as int) == before,
                        forall|t: int| 0 <= t < j ==> #[trigger] out@[before.len() + t] as int == shifted[t],
                    decreases idx@.len() - j,
                {
                    let ghost pos = before.len() + j;
                    let ghost whole = merged_indices(meshes@);
                    let ghost part = merged_indices(prefix);
                    assert(shifted.len() == idx@.len());
                    assert(pos < part.len());
                    assert(part[pos as int] == shifted[j as int]);
                    assert(whole.take(part.len() as int)[pos as int] == whole[pos as int]);
                    assert(whole[pos as int] == part[pos as int]);
                    assert(whole[pos as int] <= u32::MAX);
                    out.push(idx[j] + offset);
                    proof {
                        assert(out@.take(before.len() as int) =~= before);
                    }
                    j += 1;
                }
            },
            None => {
                assert(vertex_total(prefix) == offset + m.vertex_count);
                let mut j: u32 = 0;
                while j < m.vertex_count
                    invariant
                        j <= m.vertex_count,
                        m.indices is None,
                        merged_indices(prefix) == before.map_values(|x: u32| x as int) + shifted,
                        shifted == own_indices(*m).map_values(|x: int| x + offset as int),
                        offset + m.vertex_count <= u32::MAX,
                        out@.len() == before.len() + j,
                        out@.take(before.len() as int) == before,
                        forall|t: int| 0 <= t < j ==> #[trigger] out@[before.len() + t] as int == shifted[t],
                    decreases m.vertex_count - j,
                {
                    out.push(j + offset);
                    proof {
                        assert(out@.take(before.len() as int) =~= before);
                    }
                    j += 1;
                }
            },
        }
        proof {
            let mapped = out@.map_values(|x: u32| x as int);
            let expected = before.map_values(|x: u32| x as int) + shifted;
            assert(shifted.len() == out@.len() - before.len());
            assert forall|i: int| 0 <= i < mapped.len() implies mapped[i] == expected[i] by {
                if i < before.len() {
                    assert(out@.take(before.len() as int)[i] == out@[i]);
                } else {
                    assert(out@[before.len() + (i - before.len())] as int == shifted[i - before.len()]);
                }
            }
            assert(mapped =~= expected);
        }
        offset = offset + m.vertex_count;
        k += 1;
    }
    proof {
        assert(meshes@.take(meshes@.len() as int) =~= meshes@);
    }
    if out.len() == 0 {
        let mut j: u32 = 0;
        while j < offset
            invariant
                j <= offset,
                out@.len() == j,
                forall|t: int| 0 <= t < j ==> #[trigger] out@[t] as int == t,
            decreases offset - j,
        {
            out.push(j);
            j += 1;
        }
        proof {
            assert(out@.map_values(|x: u32| x as int) =~= scene_indices(meshes@));
        }
    }
    out
}

} // verus!
