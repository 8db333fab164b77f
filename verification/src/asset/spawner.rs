//! Spawning a loaded model: the order its nodes are created in, the node each
//! bone of a skinned mesh binds to, and which submesh gets which material.

use vstd::prelude::*;
use crate::asset::model::ModelNode;

verus! {

/// The names of the nodes of a hierarchy in the order they are created:
/// every child hierarchy in turn, then the node itself.
pub open spec fn spawn_names(node: ModelNode) -> Seq<Seq<char>>
    decreases node,
{
    forest_spawn_names(node.children@) + seq![node.name@]
}

/// The creation order of a sequence of hierarchies, one after the other.
pub open spec fn forest_spawn_names(nodes: Seq<ModelNode>) -> Seq<Seq<char>>
    decreases nodes,
{
    if nodes.len() == 0 {
        Seq::empty()
    } else {
        forest_spawn_names(nodes.drop_last()) + spawn_names(nodes.last())
    }
}

/// The names of `names` as plain character sequences.
pub open spec fn names_view(names: Seq<String>) -> Seq<Seq<char>> {
    names.map_values(|s: String| s@)
}

/// Appends the creation order of the hierarchy under `node` to `out`.
fn spawn_order_into(node: &ModelNode, out: &mut Vec<String>)
    ensures
        names_view(final(out)@) == names_view(old(out)@) + spawn_names(*node),
    decreases node,
{
    let ghost start = names_view(out@);
    let mut c: usize = 0;
    while c < node.children.len()
        invariant
            c <= node.children.len(),
            names_view(out@) =~= start + forest_spawn_names(node.children@.take(c as int)),
        decreases node.children.len() - c,
    {
        spawn_order_into(&node.children[c], out);
        proof {
            assert(node.children@.take(c + 1).drop_last() =~= node.children@.take(c as int));
            assert(node.children@.take(c + 1).last() == node.children@[c as int]);
        }
        c += 1;
    }
    assert(node.children@.take(node.children.len() as int) =~= node.children@);
    let ghost before = out@;
    out.push(node.name.clone());
    assert(out@ =~= before.push(node.name));
    assert(names_view(out@) =~= names_view(before).push(node.name@));
}

/// The names of the nodes of a model in the order they are created.
pub fn spawn_order(root: &ModelNode) -> (names: Vec<String>)
    ensures
        names_view(names@) == spawn_names(*root),
{
    let mut names: Vec<String> = Vec::new();
    assert(names_view(names@) =~= Seq::empty());
    spawn_order_into(root, &mut names);
    assert(names_view(names@) =~= spawn_names(*root));
    names
}

/// The last position of `name` in `names`: a later node of the same name
/// replaces an earlier one in the name lookup.
pub open spec fn last_position(names: Seq<Seq<char>>, name: Seq<char>) -> Option<nat>
    decreases names.len(),
{
    if names.len() == 0 {
        None
    } else if names.last() == name {
        Some((names.len() - 1) as nat)
    } else {
        last_position(names.drop_last(), name)
    }
}

/// A found position lies within the names.
proof fn lemma_last_position_bound(names: Seq<Seq<char>>, name: Seq<char>)
    ensures
        last_position(names, name) matches Some(p) ==> p < names.len(),
    decreases names.len(),
{
    if names.len() > 0 && names.last() != name {
        lemma_last_position_bound(names.drop_last(), name);
    }
}

/// The position of the node that `name` looks up: the last node of that name.
pub fn find_node(names: &Vec<String>, name: &String) -> (r: Option<usize>)
    ensures
        r == (match last_position(names_view(names@), name@) {
            Some(p) => Some(p as usize),
            None => None::<usize>,
        }),
{
    let mut i: usize = names.len();
    assert(names_view(names@).take(i as int) =~= names_view(names@));
    while i > 0
        invariant
            i <= names.len(),
            last_position(names_view(names@), name@) == last_position(names_view(names@).take(i as int), name@),
        decreases i,
    {
        let ghost prefix = names_view(names@).take(i as int);
        assert(prefix.last() == names@[i - 1]@);
        if names[i - 1] == *name {
            return Some(i - 1);
        }
        assert(prefix.drop_last() =~= names_view(names@).take(i - 1));
        i -= 1;
    }
    None
}

/// The nodes the bones of a skinned mesh bind to, and how many bones name no
/// node.
pub struct JointResolution {
    /// For each bone that names a node, in bone order, that node's position
    /// in the creation order.
    pub joints: Vec<usize>,
    /// The number of bones that name no node.
    pub missing: usize,
}

/// The joints of `bones` in a model whose nodes were created in the order
/// `names`: each bone binds to the node its name looks up, and bones whose
/// name is no node's are left out.
pub open spec fn spec_joints(names: Seq<Seq<char>>, bones: Seq<Seq<char>>) -> Seq<nat>
    decreases bones.len(),
{
    if bones.len() == 0 {
        Seq::empty()
    } else {
        let rest = spec_joints(names, bones.drop_last());
        match last_position(names, bones.last()) {
            Some(p) => rest.push(p),
            None => rest,
        }
    }
}

/// The number of `bones` whose name is no node's.
pub open spec fn spec_missing(names: Seq<Seq<char>>, bones: Seq<Seq<char>>) -> nat
    decreases bones.len(),
{
    if bones.len() == 0 {
        0
    } else {
        spec_missing(names, bones.drop_last()) + if last_position(names, bones.last()) is None {
            1nat
        } else {
            0nat
        }
    }
}

/// Positions as naturals.
pub open spec fn as_nats(s: Seq<usize>) -> Seq<nat> {
    s.map_values(|j: usize| j as nat)
}

/// Resolves the bones of a skinned mesh against the created nodes.
pub fn resolve_joints(names: &Vec<String>, bones: &Vec<String>) -> (r: JointResolution)
    ensures
        as_nats(r.joints@) == spec_joints(names_view(names@), names_view(bones@)),
        r.missing == spec_missing(names_view(names@), names_view(bones@)),
{
    let mut joints: Vec<usize> = Vec::new();
    let mut missing: usize = 0;
    let mut i: usize = 0;
    while i < bones.len()
        invariant
            i <= bones.len(),
            missing <= i,
            as_nats(joints@) == spec_joints(names_view(names@), names_view(bones@).take(i as int)),
            missing == spec_missing(names_view(names@), names_view(bones@).take(i as int)),
        decreases bones.len() - i,
    {
        let ghost prefix = names_view(bones@).take(i + 1);
        assert(prefix.drop_last() =~= names_view(bones@).take(i as int));
        assert(prefix.last() == bones@[i as int]@);
        let ghost names_seq = names_view(names@);
        assert(spec_joints(names_seq, prefix) == match last_position(names_seq, bones@[i as int]@) {
            Some(p) => spec_joints(names_seq, names_view(bones@).take(i as int)).push(p),
            None => spec_joints(names_seq, names_view(bones@).take(i as int)),
        });
        let ghost before = joints@;
        proof {
            lemma_last_position_bound(names_view(names@), bones@[i as int]@);
        }
        match find_node(names, &bones[i]) {
            Some(p) => {
                assert(names_seq.len() == names.len());
                joints.push(p);
                assert(as_nats(joints@) =~= as_nats(before).push(p as nat));
                assert(last_position(names_seq, bones@[i as int]@) == Some(p as nat));
                assert(as_nats(joints@) == spec_joints(names_seq, prefix));
            },
            None => {
                missing += 1;
                assert(as_nats(joints@) == spec_joints(names_seq, prefix));
            },
        }
        i += 1;
    }
    assert(names_view(bones@).take(bones.len() as int) =~= names_view(bones@));
    JointResolution { joints, missing }
}

} // verus!
