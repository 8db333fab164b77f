//! Model hierarchies and the mesh and material assets they depend on.

use vstd::prelude::*;
use crate::text::{contains, spec_contains};

verus! {

/// One node of a model hierarchy, as far as its dependencies go: its name,
/// the mesh it shows, the materials of that mesh, and its children. (The
/// node's transform does not take part in these decisions.)
pub struct ModelNode {
    pub name: String,
    pub mesh: Option<String>,
    pub materials: Vec<String>,
    pub children: Vec<ModelNode>,
}

/// The kinds of asset a model depends on.
#[derive(Clone, Copy, Debug, PartialEq, Eq, Structural)]
pub enum DependencyKind {
    /// A mesh file.
    Mesh,
    /// A standard material file.
    StandardMaterial,
    /// A material file of the facial-expression shader.
    FacialExpressionMaterial,
}

/// An asset a model depends on: its kind, the name the model uses for it,
/// and the path to load it from.
pub struct AssetDependency {
    pub kind: DependencyKind,
    pub name: String,
    pub path: String,
}

/// A dependency as plain values.
pub open spec fn dep_view(d: AssetDependency) -> (DependencyKind, Seq<char>, Seq<char>) {
    (d.kind, d.name@, d.path@)
}

/// The path of the mesh called `name`: `meshes/<name>.mesh`.
pub open spec fn mesh_path(name: Seq<char>) -> Seq<char> {
    "meshes/"@ + name + ".mesh"@
}

/// The path of the material called `name`: `materials/<name>.material`.
pub open spec fn material_path(name: Seq<char>) -> Seq<char> {
    "materials/"@ + name + ".material"@
}

/// The kind of the material called `name`: materials whose name contains
/// `EyeMouth` use the facial-expression shader.
pub open spec fn material_kind(name: Seq<char>) -> DependencyKind {
    if spec_contains(name, "EyeMouth"@) {
        DependencyKind::FacialExpressionMaterial
    } else {
        DependencyKind::StandardMaterial
    }
}

/// The mesh dependency of a node, if it shows a mesh.
pub open spec fn mesh_deps(node: ModelNode) -> Seq<(DependencyKind, Seq<char>, Seq<char>)> {
    match node.mesh {
        Some(m) => seq![(DependencyKind::Mesh, m@, mesh_path(m@))],
        None => Seq::empty(),
    }
}

/// The dependencies of a node itself: its mesh, then its materials in order.
pub open spec fn own_deps(node: ModelNode) -> Seq<(DependencyKind, Seq<char>, Seq<char>)> {
    mesh_deps(node) + Seq::new(
        node.materials@.len(),
        |i: int| (material_kind(node.materials@[i]@), node.materials@[i]@, material_path(node.materials@[i]@)),
    )
}

/// The dependencies of a hierarchy, in the order the loader visits them: a
/// node's own, then those of each child in turn.
pub open spec fn node_deps(node: ModelNode) -> Seq<(DependencyKind, Seq<char>, Seq<char>)>
    decreases node,
{
    own_deps(node) + forest_deps(node.children@)
}

/// The dependencies of a sequence of hierarchies, one after the other.
pub open spec fn forest_deps(nodes: Seq<ModelNode>) -> Seq<(DependencyKind, Seq<char>, Seq<char>)>
    decreases nodes,
{
    if nodes.len() == 0 {
        Seq::empty()
    } else {
        forest_deps(nodes.drop_last()) + node_deps(nodes.last())
    }
}


/// `prefix`, then `name`, then `suffix`.
fn join3(prefix: &str, name: &str, suffix: &str) -> (s: String)
    ensures
        s@ == prefix@ + name@ + suffix@,
{
    let mut s = String::from_str(prefix);
    s.append(name);
    s.append(suffix);
    s
}

/// The path of the mesh called `name`.
pub fn mesh_path_of(name: &str) -> (p: String)
    ensures
        p@ == mesh_path(name@),
{
    join3("meshes/", name, ".mesh")
}

/// The path of the material called `name`.
pub fn material_path_of(name: &str) -> (p: String)
    ensures
        p@ == material_path(name@),
{
    join3("materials/", name, ".material")
}

/// The path of the texture called `name`: `textures/<name>.texture`.
pub open spec fn texture_path(name: Seq<char>) -> Seq<char> {
    "textures/"@ + name + ".texture"@
}

/// The path of the texture called `name`, as a material file refers to it.
pub fn texture_path_of(name: &str) -> (p: String)
    ensures
        p@ == texture_path(name@),
{
    join3("textures/", name, ".texture")
}

/// The kind of the material called `name`.
pub fn material_kind_of(name: &str) -> (k: DependencyKind)
    ensures
        k == material_kind(name@),
{
    if contains(name, "EyeMouth") {
        DependencyKind::FacialExpressionMaterial
    } else {
        DependencyKind::StandardMaterial
    }
}

/// The dependencies of `deps` as plain values.
pub open spec fn deps_view(deps: Seq<AssetDependency>) -> Seq<(DependencyKind, Seq<char>, Seq<char>)> {
    deps.map_values(|d: AssetDependency| dep_view(d))
}

/// Appends the dependencies of the hierarchy under `node` to `out`.
fn collect_into(node: &ModelNode, out: &mut Vec<AssetDependency>)
    ensures
        deps_view(final(out)@) == deps_view(old(out)@) + node_deps(*node),
    decreases node,
{
    let ghost start = deps_view(out@);
    if let Some(mesh) = &node.mesh {
        let dep = AssetDependency {
            kind: DependencyKind::Mesh,
            name: mesh.clone(),
            path: mesh_path_of(mesh.as_str()),
        };
        out.push(dep);
    }
    let ghost mesh_part = mesh_deps(*node);
    assert(deps_view(out@) =~= start + mesh_part);
    let mut i: usize = 0;
    while i < node.materials.len()
        invariant
            i <= node.materials.len(),
            deps_view(out@) =~= start + mesh_part + Seq::new(
                i as nat,
                |k: int|
                    (
                        material_kind(node.materials@[k]@),
                        node.materials@[k]@,
                        material_path(node.materials@[k]@),
                    ),
            ),
        decreases node.materials.len() - i,
    {
        let name = &node.materials[i];
        let dep = AssetDependency {
            kind: material_kind_of(name.as_str()),
            name: name.clone(),
            path: material_path_of(name.as_str()),
        };
        let ghost before = out@;
        let ghost entry = dep_view(dep);
        out.push(dep);
        proof {
            assert(out@ =~= before.push(dep));
            assert(deps_view(out@) =~= deps_view(before).push(entry));
            assert(Seq::new(
                (i + 1) as nat,
                |k: int|
                    (
                        material_kind(node.materials@[k]@),
                        node.materials@[k]@,
                        material_path(node.materials@[k]@),
                    ),
            ) =~= Seq::new(
                i as nat,
                |k: int|
                    (
                        material_kind(node.materials@[k]@),
                        node.materials@[k]@,
                        material_path(node.materials@[k]@),
                    ),
            ).push(entry));
        }
        i += 1;
    }
    assert(deps_view(out@) =~= start + own_deps(*node));
    let mut c: usize = 0;
    while c < node.children.len()
        invariant
            c <= node.children.len(),
            deps_view(out@) =~= start + own_deps(*node) + forest_deps(node.children@.take(c as int)),
        decreases node.children.len() - c,
    {
        let ghost before = deps_view(out@);
        collect_into(&node.children[c], out);
        proof {
            assert(node.children@.take(c + 1).drop_last() =~= node.children@.take(c as int));
            assert(node.children@.take(c + 1).last() == node.children@[c as int]);
        }
        c += 1;
    }
    assert(node.children@.take(node.children.len() as int) =~= node.children@);
}

/// The meshes and materials a model hierarchy needs, in the order the loader
/// requests them: each node's mesh, then its materials, then its children's
/// dependencies. Mesh `m` loads from `meshes/m.mesh`, material `t` from
/// `materials/t.material`, and a material whose name contains `EyeMouth` uses
/// the facial-expression shader.
pub fn collect_dependencies(root: &ModelNode) -> (deps: Vec<AssetDependency>)
    ensures
        deps_view(deps@) == node_deps(*root),
{
    let mut deps: Vec<AssetDependency> = Vec::new();
    collect_into(root, &mut deps);
    assert(deps_view(Seq::<AssetDependency>::empty()) =~= Seq::empty());
    assert(deps_view(deps@) =~= node_deps(*root));
    deps
}

} // verus!
