//! Meshes: which vertex attributes a loaded mesh carries, its bone indices,
//! and the labels of its submeshes.

use vstd::prelude::*;
use crate::text::{decimal, push_decimal};

verus! {

/// Four bone indices of a vertex, as stored in a mesh file.
#[derive(Clone, Copy, Debug, PartialEq, Eq, Structural)]
pub struct UInt4 {
    pub x: u16,
    pub y: u16,
    pub z: u16,
    pub w: u16,
}

/// The four indices in order `x, y, z, w`.
pub open spec fn uint4_array(v: UInt4) -> Seq<u16> {
    seq![v.x, v.y, v.z, v.w]
}

impl vstd::std_specs::convert::FromSpecImpl<UInt4> for [u16; 4] {
    open spec fn obeys_from_spec() -> bool {
        true
    }

    open spec fn from_spec(v: UInt4) -> [u16; 4] {
        [v.x, v.y, v.z, v.w]
    }
}

impl From<UInt4> for [u16; 4] {
    fn from(val: UInt4) -> (a: [u16; 4])
        ensures
            a@ == uint4_array(val),
    {
        let a = [val.x, val.y, val.z, val.w];
        assert(a@ =~= uint4_array(val));
        a
    }
}

/// The bone indices of every vertex as arrays, in vertex order.
pub fn bone_indices(indices: &Vec<UInt4>) -> (r: Vec<[u16; 4]>)
    ensures
        r@.len() == indices@.len(),
        forall|i: int| 0 <= i < indices@.len() ==> #[trigger] r@[i]@ == uint4_array(indices@[i]),
{
    let mut r: Vec<[u16; 4]> = Vec::new();
    let mut i: usize = 0;
    while i < indices.len()
        invariant
            i <= indices.len(),
            r@.len() == i,
            forall|k: int| 0 <= k < i ==> #[trigger] r@[k]@ == uint4_array(indices@[k]),
        decreases indices.len() - i,
    {
        let v = indices[i];
        let a = [v.x, v.y, v.z, v.w];
        assert(a@ =~= uint4_array(v));
        r.push(a);
        i += 1;
    }
    r
}

/// The vertex attributes a mesh can carry.
#[derive(Clone, Copy, Debug, PartialEq, Eq, Structural)]
pub enum MeshAttribute {
    Position,
    Color,
    Uv0,
    Normal,
    Tangent,
    JointIndex,
    JointWeight,
}

/// How many entries each per-vertex list of a mesh file holds.
pub struct AttributeCounts {
    pub colors: usize,
    pub uvs: usize,
    pub normals: usize,
    pub tangents: usize,
    pub bone_indices: usize,
    pub bone_weights: usize,
}

/// The attribute if its list is non-empty.
pub open spec fn if_present(count: usize, attribute: MeshAttribute) -> Seq<MeshAttribute> {
    if count > 0 {
        seq![attribute]
    } else {
        Seq::empty()
    }
}

/// The attributes a loaded mesh carries, in the order they are inserted:
/// positions always, then each other attribute whose list is non-empty.
pub open spec fn spec_mesh_attributes(c: AttributeCounts) -> Seq<MeshAttribute> {
    seq![MeshAttribute::Position] + if_present(c.colors, MeshAttribute::Color) + if_present(
        c.uvs,
        MeshAttribute::Uv0,
    ) + if_present(c.normals, MeshAttribute::Normal) + if_present(c.tangents, MeshAttribute::Tangent)
        + if_present(c.bone_indices, MeshAttribute::JointIndex) + if_present(
        c.bone_weights,
        MeshAttribute::JointWeight,
    )
}

/// The attributes a loaded mesh carries, in insertion order.
pub fn mesh_attributes(counts: &AttributeCounts) -> (r: Vec<MeshAttribute>)
    ensures
        r@ == spec_mesh_attributes(*counts),
        r@.len() > 0 && r@[0] == MeshAttribute::Position,
        r@.contains(MeshAttribute::Color) <==> counts.colors > 0,
        r@.contains(MeshAttribute::Uv0) <==> counts.uvs > 0,
        r@.contains(MeshAttribute::Normal) <==> counts.normals > 0,
        r@.contains(MeshAttribute::Tangent) <==> counts.tangents > 0,
        r@.contains(MeshAttribute::JointIndex) <==> counts.bone_indices > 0,
        r@.contains(MeshAttribute::JointWeight) <==> counts.bone_weights > 0,
        r@.no_duplicates(),
{
    let mut r: Vec<MeshAttribute> = Vec::new();
    r.push(MeshAttribute::Position);
    let ghost mut expected = seq![MeshAttribute::Position];
    if counts.colors > 0 {
        r.push(MeshAttribute::Color);
    }
    proof { expected = expected + if_present(counts.colors, MeshAttribute::Color); }
    assert(r@ =~= expected);
    if counts.uvs > 0 {
        r.push(MeshAttribute::Uv0);
    }
    proof { expected = expected + if_present(counts.uvs, MeshAttribute::Uv0); }
    assert(r@ =~= expected);
    if counts.normals > 0 {
        r.push(MeshAttribute::Normal);
    }
    proof { expected = expected + if_present(counts.normals, MeshAttribute::Normal); }
    assert(r@ =~= expected);
    if counts.tangents > 0 {
        r.push(MeshAttribute::Tangent);
    }
    proof { expected = expected + if_present(counts.tangents, MeshAttribute::Tangent); }
    assert(r@ =~= expected);
    if counts.bone_indices > 0 {
        r.push(MeshAttribute::JointIndex);
    }
    proof { expected = expected + if_present(counts.bone_indices, MeshAttribute::JointIndex); }
    assert(r@ =~= expected);
    if counts.bone_weights > 0 {
        r.push(MeshAttribute::JointWeight);
    }
    proof { expected = expected + if_present(counts.bone_weights, MeshAttribute::JointWeight); }
    assert(r@ =~= expected);
    proof {
        lemma_attribute_presence(*counts);
    }
    r
}

/// A loaded mesh always carries positions, first; every other attribute is
/// present exactly when the mesh file's list for it is non-empty, and none is
/// present twice.
pub proof fn lemma_attribute_presence(c: AttributeCounts)
    ensures
        spec_mesh_attributes(c).len() > 0,
        spec_mesh_attributes(c)[0] == MeshAttribute::Position,
        spec_mesh_attributes(c).contains(MeshAttribute::Color) <==> c.colors > 0,
        spec_mesh_attributes(c).contains(MeshAttribute::Uv0) <==> c.uvs > 0,
        spec_mesh_attributes(c).contains(MeshAttribute::Normal) <==> c.normals > 0,
        spec_mesh_attributes(c).contains(MeshAttribute::Tangent) <==> c.tangents > 0,
        spec_mesh_attributes(c).contains(MeshAttribute::JointIndex) <==> c.bone_indices > 0,
        spec_mesh_attributes(c).contains(MeshAttribute::JointWeight) <==> c.bone_weights > 0,
        spec_mesh_attributes(c).no_duplicates(),
{
    let p0 = seq![MeshAttribute::Position];
    let p1 = p0 + if_present(c.colors, MeshAttribute::Color);
    let p2 = p1 + if_present(c.uvs, MeshAttribute::Uv0);
    let p3 = p2 + if_present(c.normals, MeshAttribute::Normal);
    let p4 = p3 + if_present(c.tangents, MeshAttribute::Tangent);
    let p5 = p4 + if_present(c.bone_indices, MeshAttribute::JointIndex);
    assert(p0.no_duplicates());
    assert forall|x: MeshAttribute| p0.contains(x) <==> x == MeshAttribute::Position by {
        if x == MeshAttribute::Position {
            assert(p0[0] == x);
        }
    }
    lemma_append_present(p0, c.colors, MeshAttribute::Color);
    lemma_append_present(p1, c.uvs, MeshAttribute::Uv0);
    lemma_append_present(p2, c.normals, MeshAttribute::Normal);
    lemma_append_present(p3, c.tangents, MeshAttribute::Tangent);
    lemma_append_present(p4, c.bone_indices, MeshAttribute::JointIndex);
    lemma_append_present(p5, c.bone_weights, MeshAttribute::JointWeight);
}

/// Appending an attribute that is not yet present, when its count is
/// positive, keeps the list free of duplicates and adds exactly that
/// attribute.
proof fn lemma_append_present(p: Seq<MeshAttribute>, count: usize, a: MeshAttribute)
    requires
        p.no_duplicates(),
        !p.contains(a),
    ensures
        (p + if_present(count, a)).no_duplicates(),
        forall|x: MeshAttribute| #[trigger] (p + if_present(count, a)).contains(x) <==> (p.contains(x)
            || (count > 0 && x == a)),
        p.len() > 0 ==> (p + if_present(count, a))[0] == p[0],
{
    let q = p + if_present(count, a);
    if count > 0 {
        assert(q =~= p.push(a));
        assert forall|x: MeshAttribute| q.contains(x) <==> (p.contains(x) || x == a) by {
            if q.contains(x) {
                let k = choose|k: int| 0 <= k < q.len() && q[k] == x;
                if k < p.len() {
                    assert(p[k] == x);
                }
            }
            if p.contains(x) {
                let k = choose|k: int| 0 <= k < p.len() && p[k] == x;
                assert(q[k] == x);
            }
            if x == a {
                assert(q[p.len() as int] == x);
            }
        }
        assert forall|i: int, j: int| 0 <= i < q.len() && 0 <= j < q.len() && i != j implies q[i]
            != q[j] by {
            if i < p.len() && j == p.len() {
                assert(p[i] == q[i]);
            } else if j < p.len() && i == p.len() {
                assert(p[j] == q[j]);
            }
        }
    } else {
        assert(q =~= p);
    }
}

/// The label of submesh `i` of the mesh at `asset_path`: the path, an
/// underscore, and the index in decimal.
pub open spec fn spec_submesh_label(asset_path: Seq<char>, i: nat) -> Seq<char> {
    asset_path + seq!['_'] + decimal(i)
}

/// The label under which submesh `i` of the mesh at `asset_path` is stored.
pub fn submesh_label(asset_path: &str, i: u64) -> (s: String)
    ensures
        s@ == spec_submesh_label(asset_path@, i as nat),
{
    proof {
        reveal_strlit("_");
    }
    let mut s = String::from_str(asset_path);
    s.append("_");
    push_decimal(&mut s, i);
    assert(s@ =~= spec_submesh_label(asset_path@, i as nat));
    s
}

/// Whether a mesh is skinned: it names bones and has their bind poses.
pub fn is_skinned(bone_count: usize, bindpose_count: usize) -> (b: bool)
    ensures
        b == (bone_count > 0 && bindpose_count > 0),
{
    bone_count > 0 && bindpose_count > 0
}

} // verus!
