//! Texture-slot accounting: which texture ids a primitive adds to a batch's
//! texture table.

use vstd::prelude::*;
use crate::rendering::Vertex;

verus! {

/// The texture table after one vertex has been admitted: its texture id is
/// appended unless the vertex has no texture or the id is already in the table.
pub open spec fn admit_texture(table: Seq<u32>, v: Vertex) -> Seq<u32> {
    if v.has_texture && !table.contains(v.texture) {
        table.push(v.texture)
    } else {
        table
    }
}

/// The texture table after the vertices of `points` have been admitted in order.
pub open spec fn admit_textures(table: Seq<u32>, points: Seq<Vertex>) -> Seq<u32>
    decreases points.len(),
{
    if points.len() == 0 {
        table
    } else {
        admit_texture(admit_textures(table, points.drop_last()), points.last())
    }
}

/// The number of texture slots that `points` take up beyond those of `table`.
pub open spec fn textures_needed(table: Seq<u32>, points: Seq<Vertex>) -> nat {
    (admit_textures(table, points).len() - table.len()) as nat
}

/// The texture ids that the textured vertices of `points` refer to.
pub open spec fn referenced_textures(points: Seq<Vertex>) -> Set<u32> {
    Set::new(
        |t: u32|
            exists|i: int|
                0 <= i < points.len() && (#[trigger] points[i]).has_texture && points[i].texture
                    == t,
    )
}

/// Whether `id` is among the first `filled` entries of `table`.
pub fn holds(table: &Vec<u32>, filled: usize, id: u32) -> (found: bool)
    requires
        filled <= table@.len(),
    ensures
        found == table@.subrange(0, filled as int).contains(id),
{
    let mut i: usize = 0;
    while i < filled
        invariant
            i <= filled <= table@.len(),
            forall|j: int| 0 <= j < i ==> table@[j] != id,
        decreases filled - i,
    {
        if table[i] == id {
            assert(table@.subrange(0, filled as int)[i as int] == id);
            return true;
        }
        i += 1;
    }
    false
}

/// Admitting vertices only ever appends to the table, one slot per vertex at most.
pub proof fn lemma_admit_extends(table: Seq<u32>, points: Seq<Vertex>)
    ensures
        table.len() <= admit_textures(table, points).len() <= table.len() + points.len(),
        admit_textures(table, points).subrange(0, table.len() as int) == table,
    decreases points.len(),
{
    if points.len() > 0 {
        lemma_admit_extends(table, points.drop_last());
    }
}

/// Admitting a prefix of the vertices takes no more slots than admitting all of them.
pub proof fn lemma_admit_prefix(table: Seq<u32>, points: Seq<Vertex>, n: int)
    requires
        0 <= n <= points.len(),
    ensures
        admit_textures(table, points.take(n)).len() <= admit_textures(table, points).len(),
    decreases points.len() - n,
{
    if n < points.len() {
        lemma_admit_prefix(table, points, n + 1);
        assert(points.take(n + 1).drop_last() == points.take(n));
    } else {
        assert(points.take(n) == points);
    }
}

/// A table without repeated ids stays so, and afterwards holds exactly its old
/// ids and the ids that the textured vertices refer to.
pub proof fn lemma_admit_contents(table: Seq<u32>, points: Seq<Vertex>)
    requires
        table.no_duplicates(),
    ensures
        admit_textures(table, points).no_duplicates(),
        admit_textures(table, points).to_set() == table.to_set().union(
            referenced_textures(points),
        ),
    decreases points.len(),
{
    let after = admit_textures(table, points);
    if points.len() == 0 {
        assert(referenced_textures(points) =~= Set::empty());
        assert(after.to_set() =~= table.to_set().union(referenced_textures(points)));
    } else {
        let front = points.drop_last();
        let v = points.last();
        let mid = admit_textures(table, front);
        lemma_admit_contents(table, front);
        assert forall|t: u32| referenced_textures(points).contains(t) <==> (referenced_textures(
            front,
        ).contains(t) || (v.has_texture && v.texture == t)) by {
            if referenced_textures(points).contains(t) {
                let i = choose|i: int|
                    0 <= i < points.len() && (#[trigger] points[i]).has_texture
                        && points[i].texture == t;
                if i < front.len() {
                    assert(front[i] == points[i]);
                }
            }
            if referenced_textures(front).contains(t) {
                let i = choose|i: int|
                    0 <= i < front.len() && (#[trigger] front[i]).has_texture && front[i].texture
                        == t;
                assert(points[i] == front[i]);
            }
            if v.has_texture && v.texture == t {
                assert(points[points.len() - 1] == v);
            }
        }
        assert forall|t: u32| after.to_set().contains(t) <==> (mid.to_set().contains(t) || (
        v.has_texture && v.texture == t)) by {
            if v.has_texture && !mid.contains(v.texture) {
                assert(after == mid.push(v.texture));
                if mid.contains(t) {
                    let j = choose|j: int| 0 <= j < mid.len() && mid[j] == t;
                    assert(after[j] == t);
                }
                assert(after[mid.len() as int] == v.texture);
            }
        }
        assert(after.to_set() =~= table.to_set().union(referenced_textures(points)));
    }
}

/// Vertices whose textures are all resident take no texture slot, however
/// often they name the same id.
pub proof fn law_resident_textures_take_no_slot(table: Seq<u32>, points: Seq<Vertex>)
    requires
        forall|i: int|
            0 <= i < points.len() && (#[trigger] points[i]).has_texture ==> table.contains(
                points[i].texture,
            ),
    ensures
        admit_textures(table, points) == table,
        textures_needed(table, points) == 0,
    decreases points.len(),
{
    if points.len() > 0 {
        let front = points.drop_last();
        assert forall|i: int| 0 <= i < front.len() && (#[trigger] front[i]).has_texture implies table.contains(
            front[i].texture,
        ) by {
            assert(front[i] == points[i]);
        }
        law_resident_textures_take_no_slot(table, front);
        assert(points.last() == points[points.len() - 1]);
    }
}

/// Vertices take exactly as many texture slots as they name distinct texture
/// ids that are not resident.
pub proof fn law_new_textures_take_one_slot_each(table: Seq<u32>, points: Seq<Vertex>)
    requires
        table.no_duplicates(),
    ensures
        referenced_textures(points).difference(table.to_set()).finite(),
        textures_needed(table, points) == referenced_textures(points).difference(
            table.to_set(),
        ).len(),
{
    let after = admit_textures(table, points);
    let resident = table.to_set();
    let fresh = referenced_textures(points).difference(resident);
    lemma_admit_contents(table, points);
    lemma_admit_extends(table, points);
    table.unique_seq_to_set();
    after.unique_seq_to_set();
    vstd::seq_lib::seq_to_set_is_finite(table);
    vstd::seq_lib::seq_to_set_is_finite(after);
    assert(fresh.subset_of(after.to_set()));
    vstd::set_lib::lemma_len_subset(fresh, after.to_set());
    assert(resident.disjoint(fresh));
    assert(resident + fresh =~= after.to_set());
    vstd::set_lib::lemma_set_disjoint_lens(resident, fresh);
}

} // verus!
