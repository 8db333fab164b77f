use shupogaki::asset::mesh::{bone_indices, is_skinned, mesh_attributes, submesh_label, AttributeCounts, MeshAttribute, UInt4};
use shupogaki::asset::model::{collect_dependencies, DependencyKind, ModelNode};
use shupogaki::asset::pairing::paired_indices;
use shupogaki::asset::spawner::{find_node, resolve_joints, spawn_order};
use shupogaki::asset::texture::{load_texel, TexelLoaderError};

fn node(name: &str, mesh: Option<&str>, materials: &[&str], children: Vec<ModelNode>) -> ModelNode {
    ModelNode {
        name: name.to_string(),
        mesh: mesh.map(|m| m.to_string()),
        materials: materials.iter().map(|m| m.to_string()).collect(),
        children,
    }
}

fn sample_model() -> ModelNode {
    node(
        "Root",
        None,
        &[],
        vec![
            node("Body", Some("Hikari_Body"), &["Hikari_Body", "Hikari_EyeMouth"], vec![]),
            node("Arm", None, &[], vec![node("Hand", Some("Hand"), &["Skin"], vec![])]),
        ],
    )
}

#[test]
fn dependencies_in_visit_order() {
    let deps = collect_dependencies(&sample_model());
    let got: Vec<(DependencyKind, String, String)> =
        deps.into_iter().map(|d| (d.kind, d.name, d.path)).collect();
    assert_eq!(
        got,
        vec![
            (DependencyKind::Mesh, "Hikari_Body".to_string(), "meshes/Hikari_Body.mesh".to_string()),
            (
                DependencyKind::StandardMaterial,
                "Hikari_Body".to_string(),
                "materials/Hikari_Body.material".to_string()
            ),
            (
                DependencyKind::FacialExpressionMaterial,
                "Hikari_EyeMouth".to_string(),
                "materials/Hikari_EyeMouth.material".to_string()
            ),
            (DependencyKind::Mesh, "Hand".to_string(), "meshes/Hand.mesh".to_string()),
            (DependencyKind::StandardMaterial, "Skin".to_string(), "materials/Skin.material".to_string()),
        ]
    );
}

#[test]
fn nodes_spawn_children_first() {
    let order = spawn_order(&sample_model());
    assert_eq!(order, vec!["Body", "Hand", "Arm", "Root"]);
    assert_eq!(find_node(&order, &"Arm".to_string()), Some(2));
    assert_eq!(find_node(&order, &"Leg".to_string()), None);
    let dup = vec!["A".to_string(), "B".to_string(), "A".to_string()];
    assert_eq!(find_node(&dup, &"A".to_string()), Some(2));
}

#[test]
fn joints_skip_unknown_bones() {
    let order = spawn_order(&sample_model());
    let bones = vec!["Hand".to_string(), "Tail".to_string(), "Root".to_string()];
    let r = resolve_joints(&order, &bones);
    assert_eq!(r.joints, vec![1, 3]);
    assert_eq!(r.missing, 1);
}

#[test]
fn pairing() {
    assert_eq!(paired_indices(4, &vec![true, false, true]), vec![0, 2]);
    assert_eq!(paired_indices(2, &vec![true, true, true]), vec![0, 1]);
    assert_eq!(paired_indices(0, &vec![true]), Vec::<usize>::new());
}

#[test]
fn mesh_bookkeeping() {
    let counts = AttributeCounts { colors: 0, uvs: 3, normals: 3, tangents: 0, bone_indices: 3, bone_weights: 3 };
    assert_eq!(
        mesh_attributes(&counts),
        vec![
            MeshAttribute::Position,
            MeshAttribute::Uv0,
            MeshAttribute::Normal,
            MeshAttribute::JointIndex,
            MeshAttribute::JointWeight
        ]
    );
    let idx = vec![UInt4 { x: 1, y: 2, z: 3, w: 4 }, UInt4 { x: 0, y: 0, z: 9, w: 65535 }];
    assert_eq!(bone_indices(&idx), vec![[1, 2, 3, 4], [0, 0, 9, 65535]]);
    let a: [u16; 4] = UInt4 { x: 5, y: 6, z: 7, w: 8 }.into();
    assert_eq!(a, [5, 6, 7, 8]);
    assert_eq!(submesh_label("meshes/Body.mesh", 3), format!("{}_{}", "meshes/Body.mesh", 3));
    assert!(is_skinned(2, 2));
    assert!(!is_skinned(2, 0));
}

#[test]
fn texels_decode_png() {
    let img = image::RgbaImage::from_raw(2, 1, vec![1, 2, 3, 4, 250, 251, 252, 253]).unwrap();
    let mut bytes: Vec<u8> = Vec::new();
    img.write_to(&mut std::io::Cursor::new(&mut bytes), image::ImageFormat::Png).unwrap();
    match load_texel(&bytes) {
        Ok(t) => {
            assert_eq!((t.width, t.height), (2, 1));
            assert_eq!(t.data, vec![1, 2, 3, 4, 250, 251, 252, 253]);
        }
        Err(_) => panic!("a valid PNG must decode"),
    }
    assert!(matches!(load_texel(&[1, 2, 3]), Err(TexelLoaderError::Decode(_))));
}
