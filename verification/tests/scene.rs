use assimp::log::{verbose_logging_value, LogCall, LogStream};
use assimp::math::scalar::Scalar64;
use assimp::math::{Color4D, Matrix4x4, Quaternion, Scalar, Vector3D};
use assimp::scene::ownership::{PostProcessError, ReleaseCall, SceneHandle, SceneKind};
use assimp::scene::{
    Animation, Camera, Face, Light, Material, Mesh, NodeAnim, NodeTree, QuatKey, Scene, Texture,
    VectorKey,
};
use assimp::string::AiString;

fn v3(x: f32, y: f32, z: f32) -> Vector3D {
    Vector3D::new(
        Scalar::from_bits(x.to_bits()),
        Scalar::from_bits(y.to_bits()),
        Scalar::from_bits(z.to_bits()),
    )
}

fn no_channels() -> Vec<Vec<Vector3D>> {
    vec![Vec::new(); 8]
}

fn no_colors() -> Vec<Vec<Color4D>> {
    vec![Vec::new(); 8]
}

fn grey(level: f32) -> Color4D {
    let c = Scalar::from_bits(level.to_bits());
    Color4D::new(c, c, c, Scalar::one())
}

fn triangle_mesh() -> Mesh {
    let vertices = vec![v3(0.0, 0.0, 0.0), v3(1.0, 0.0, 0.0), v3(0.0, 1.0, 0.0), v3(1.0, 1.0, 0.0)];
    let normals = vec![v3(0.0, 0.0, 1.0); 4];
    let mut channels = no_channels();
    channels[1] = vec![v3(0.0, 0.0, 0.0), v3(1.0, 0.0, 0.0), v3(0.0, 1.0, 0.0), v3(1.0, 1.0, 0.0)];
    let faces = vec![Face::new(vec![0, 1, 2]).unwrap(), Face::new(vec![2, 1, 3]).unwrap()];
    let mut colors = no_colors();
    colors[0] = vec![grey(0.0), grey(0.25), grey(0.5), grey(1.0)];
    Mesh::new(0x4, vertices, normals, Vec::new(), Vec::new(), colors, channels, faces).unwrap()
}

fn small_tree() -> NodeTree {
    let mut tree =
        NodeTree::new(AiString::from_str("root"), Matrix4x4::identity(), vec![]).unwrap();
    let body = tree
        .add_child(0, AiString::from_str("body"), Matrix4x4::identity(), vec![0])
        .unwrap();
    let head = tree
        .add_child(0, AiString::from_str("head"), Matrix4x4::identity(), vec![1, 2])
        .unwrap();
    let leg = tree
        .add_child(body, AiString::from_str("leg"), Matrix4x4::identity(), vec![])
        .unwrap();
    assert_eq!((body, head, leg), (1, 2, 3));
    tree
}

#[test]
fn test_scene_properties() {
    let scene = Scene::new(
        0x2,
        small_tree(),
        vec![triangle_mesh(), triangle_mesh(), triangle_mesh()],
        vec![Material { index: 0 }, Material { index: 1 }],
        vec![],
        vec![Texture { index: 0 }],
        vec![Light { index: 0 }, Light { index: 1 }, Light { index: 2 }, Light { index: 3 }],
        vec![Camera { index: 0 }],
    )
    .unwrap();
    assert_eq!(scene.num_meshes() as usize, scene.mesh_iter().len());
    assert_eq!(scene.num_materials() as usize, scene.material_iter().len());
    assert_eq!(scene.num_animations() as usize, scene.animation_iter().len());
    assert_eq!(scene.num_textures() as usize, scene.texture_iter().len());
    assert_eq!(scene.num_lights() as usize, scene.light_iter().len());
    assert_eq!(scene.num_cameras() as usize, scene.camera_iter().len());
    assert_eq!(scene.num_meshes(), 3);
    assert_eq!(scene.num_materials(), 2);
    assert_eq!(scene.num_animations(), 0);
    assert_eq!(scene.num_textures(), 1);
    assert_eq!(scene.num_lights(), 4);
    assert_eq!(scene.num_cameras(), 1);
    assert!(scene.mesh(2).is_some());
    assert!(scene.mesh(3).is_none());
    assert!(scene.animation(0).is_none());
    assert_eq!(scene.root_node().name(), "root");
}

#[test]
fn scene_flags() {
    let scene =
        Scene::new(0x1 | 0x4 | 0x10, small_tree(), vec![], vec![], vec![], vec![], vec![], vec![])
            .unwrap();
    assert!(scene.is_incomplete());
    assert!(!scene.is_validated());
    assert!(scene.has_validation_warning());
    assert!(!scene.is_non_verbose_format());
    assert!(scene.is_terrain());
    let scene =
        Scene::new(0x2 | 0x8, small_tree(), vec![], vec![], vec![], vec![], vec![], vec![])
            .unwrap();
    assert!(!scene.is_incomplete());
    assert!(scene.is_validated());
    assert!(!scene.has_validation_warning());
    assert!(scene.is_non_verbose_format());
    assert!(!scene.is_terrain());
}

#[test]
fn cursors_yield_in_order() {
    let scene = Scene::new(
        0,
        small_tree(),
        vec![],
        vec![Material { index: 7 }, Material { index: 8 }],
        vec![],
        vec![],
        vec![],
        vec![],
    )
    .unwrap();
    let mut it = scene.material_iter();
    assert_eq!(it.len(), 2);
    assert_eq!(it.next(), Some(&Material { index: 7 }));
    assert_eq!(it.len(), 1);
    assert_eq!(it.next(), Some(&Material { index: 8 }));
    assert_eq!(it.len(), 0);
    assert_eq!(it.next(), None);
    assert_eq!(it.next(), None);
    assert_eq!(it.len(), 0);
}

#[test]
fn mesh_counts_and_bounds() {
    let mesh = triangle_mesh();
    assert_eq!(mesh.primitive_types(), 0x4);
    assert_eq!(mesh.num_vertices(), 4);
    assert_eq!(mesh.num_faces(), 2);
    assert_eq!(mesh.get_vertex(0), Some(v3(0.0, 0.0, 0.0)));
    assert_eq!(mesh.get_vertex(3), Some(v3(1.0, 1.0, 0.0)));
    assert_eq!(mesh.get_vertex(4), None);
    assert_eq!(mesh.get_vertex(u32::MAX), None);
    assert_eq!(mesh.get_normal(3), Some(v3(0.0, 0.0, 1.0)));
    assert_eq!(mesh.get_normal(4), None);
    // the mesh has no tangents: no vertex has one
    assert_eq!(mesh.get_tangent(0), None);
    assert_eq!(mesh.get_bitangent(3), None);
    assert_eq!(mesh.get_texture_coord(1, 2), Some(v3(0.0, 1.0, 0.0)));
    assert_eq!(mesh.get_texture_coord(1, 4), None);
    assert_eq!(mesh.get_texture_coord(0, 0), None);
    assert_eq!(mesh.get_texture_coord(7, 0), None);
    assert_eq!(mesh.get_color(0, 1), Some(grey(0.25)));
    assert_eq!(mesh.get_color(0, 4), None);
    assert_eq!(mesh.get_color(1, 0), None);
    assert_eq!(mesh.colors(0).len(), 4);
    assert_eq!(mesh.colors(7).len(), 0);
    assert_eq!(mesh.get_face(1).unwrap().indices(), &[2, 1, 3]);
    assert!(mesh.get_face(2).is_none());
}

#[test]
fn mesh_cursors() {
    let mesh = triangle_mesh();
    assert_eq!(mesh.vertex_iter().len(), 4);
    assert_eq!(mesh.normal_iter().len(), 4);
    assert_eq!(mesh.tangent_iter().len(), 0);
    assert_eq!(mesh.bitangent_iter().len(), 0);
    assert_eq!(mesh.texture_coords_iter(0).len(), 0);
    assert_eq!(mesh.texture_coords_iter(1).len(), 4);
    assert_eq!(mesh.face_iter().len(), 2);
    let mut it = mesh.vertex_iter();
    assert_eq!(it.next(), Some(v3(0.0, 0.0, 0.0)));
    assert_eq!(it.next(), Some(v3(1.0, 0.0, 0.0)));
    assert_eq!(it.len(), 2);
    assert_eq!(it.next(), Some(v3(0.0, 1.0, 0.0)));
    assert_eq!(it.next(), Some(v3(1.0, 1.0, 0.0)));
    assert_eq!(it.next(), None);
    let mut faces = mesh.face_iter();
    let first = faces.next().unwrap();
    assert_eq!((first[0], first[1], first[2]), (0, 1, 2));
    assert_eq!(first.num_indices(), 3);
    let second = faces.next().unwrap();
    assert_eq!((second[0], second[1], second[2]), (2, 1, 3));
    assert!(faces.next().is_none());
}

#[test]
fn mesh_parts_must_fit() {
    let vertices = vec![v3(0.0, 0.0, 0.0), v3(1.0, 0.0, 0.0)];
    // three normals for two vertices
    assert!(Mesh::new(1, vertices.clone(), vec![v3(0.0, 0.0, 1.0); 3], vec![], vec![], no_colors(), no_channels(), vec![]).is_none());
    // one tangent for two vertices
    assert!(Mesh::new(1, vertices.clone(), vec![], vec![v3(0.0, 0.0, 1.0)], vec![], no_colors(), no_channels(), vec![]).is_none());
    assert!(Mesh::new(1, vertices.clone(), vec![], vec![], vec![v3(0.0, 0.0, 1.0)], no_colors(), no_channels(), vec![]).is_none());
    // seven channels, nine channels
    assert!(Mesh::new(1, vertices.clone(), vec![], vec![], vec![], no_colors(), vec![Vec::new(); 7], vec![]).is_none());
    assert!(Mesh::new(1, vertices.clone(), vec![], vec![], vec![], no_colors(), vec![Vec::new(); 9], vec![]).is_none());
    // a channel with one coordinate for two vertices
    let mut channels = no_channels();
    channels[7] = vec![v3(0.0, 0.0, 0.0)];
    assert!(Mesh::new(1, vertices.clone(), vec![], vec![], vec![], no_colors(), channels, vec![]).is_none());
    let mut colors = no_colors();
    colors[3] = vec![grey(1.0); 3];
    assert!(Mesh::new(1, vertices.clone(), vec![], vec![], vec![], colors, no_channels(), vec![]).is_none());
    assert!(Mesh::new(1, vertices.clone(), vec![], vec![], vec![], vec![Vec::new(); 2], no_channels(), vec![]).is_none());
    assert!(Mesh::new(1, vertices, vec![], vec![], vec![], no_colors(), no_channels(), vec![]).is_some());
    // a mesh without vertices
    let empty = Mesh::new(0, vec![], vec![], vec![], vec![], no_colors(), no_channels(), vec![]).unwrap();
    assert_eq!(empty.num_vertices(), 0);
    assert_eq!(empty.get_vertex(0), None);
}

#[test]
fn node_tree_shape() {
    let tree = small_tree();
    assert_eq!(tree.len(), 4);
    let root = tree.root();
    assert_eq!(root.id(), 0);
    assert_eq!(root.name(), "root");
    assert!(root.parent().is_none());
    assert_eq!(root.num_children(), 2);
    assert_eq!(root.num_meshes(), 0);
    assert_eq!(root.meshes(), &[] as &[u32]);
    assert_eq!(root.transformation(), Matrix4x4::identity());

    let mut children = root.child_iter();
    assert_eq!(children.len(), 2);
    let body = children.next().unwrap();
    let head = children.next().unwrap();
    assert!(children.next().is_none());
    assert_eq!(body.name(), "body");
    assert_eq!(head.name(), "head");
    assert_eq!(body.parent().unwrap().id(), 0);
    assert_eq!(head.parent().unwrap().name(), "root");
    assert_eq!(body.num_meshes(), 1);
    assert_eq!(head.num_meshes(), 2);
    assert_eq!(head.meshes(), &[1, 2]);
    assert_eq!(head.num_children(), 0);
    assert!(head.child_iter().next().is_none());

    let leg = body.child_iter().next().unwrap();
    assert_eq!(leg.id(), 3);
    assert_eq!(leg.name(), "leg");
    assert_eq!(leg.parent().unwrap().id(), body.id());
    assert_eq!(leg.parent().unwrap().parent().unwrap().id(), 0);
    assert!(tree.node(3).is_some());
    assert!(tree.node(4).is_none());
}

#[test]
fn node_tree_rejects_what_does_not_fit() {
    let mut tree = small_tree();
    // no such parent
    assert_eq!(tree.add_child(4, AiString::from_str("x"), Matrix4x4::identity(), vec![]), None);
    assert_eq!(tree.len(), 4);
    // a name that is no text
    let garbled = AiString::from_bytes(&[0xff, 0xfe]).unwrap();
    assert_eq!(tree.add_child(0, garbled, Matrix4x4::identity(), vec![]), None);
    assert!(NodeTree::new(garbled, Matrix4x4::identity(), vec![]).is_none());
    assert_eq!(tree.len(), 4);
    assert_eq!(tree.root().num_children(), 2);
    assert_eq!(tree.add_child(3, AiString::from_str("toe"), Matrix4x4::identity(), vec![5]), Some(4));
    assert_eq!(tree.node(4).unwrap().parent().unwrap().name(), "leg");
}

#[test]
fn animation_keys_are_bounds_checked() {
    let key = |t: f64, x: f32| VectorKey { time: Scalar64 { bits: t.to_bits() }, value: v3(x, 0.0, 0.0) };
    let rot = QuatKey {
        time: Scalar64 { bits: 0.5f64.to_bits() },
        value: Quaternion::new(
            Scalar::from_bits(1.0f32.to_bits()),
            Scalar::zero(),
            Scalar::zero(),
            Scalar::zero(),
        ),
    };
    let channel = NodeAnim {
        node_name: AiString::from_str("leg"),
        position_keys: vec![key(0.0, 1.0), key(1.0, 2.0)],
        rotation_keys: vec![rot],
        scaling_keys: vec![],
    };
    assert_eq!(channel.get_position_key(0), Some(key(0.0, 1.0)));
    assert_eq!(channel.get_position_key(1), Some(key(1.0, 2.0)));
    assert_eq!(channel.get_position_key(2), None);
    assert_eq!(channel.get_rotation_key(0), Some(rot));
    assert_eq!(channel.get_rotation_key(1), None);
    assert_eq!(channel.get_scaling_key(0), None);
    let animation = Animation {
        name: AiString::from_str("walk"),
        duration: Scalar64 { bits: 2.0f64.to_bits() },
        ticks_per_second: Scalar64 { bits: 25.0f64.to_bits() },
        channels: vec![channel],
    };
    assert_eq!(animation.get_node_anim(0).unwrap().node_name.as_str(), "leg");
    assert!(animation.get_node_anim(1).is_none());
    assert!(animation.get_node_anim(usize::MAX).is_none());
}

#[test]
fn test_apply_postprocessing_success() {
    let scene = SceneHandle::imported(17u32);
    let new_scene = scene.after_postprocessing(true).unwrap();
    assert_eq!(*new_scene.raw(), 17);
    assert_eq!(new_scene.kind(), SceneKind::Const);
    assert_eq!(new_scene.release(), (17, ReleaseCall::ReleaseImport));
}

#[test]
fn apply_postprocessing_failure_leaves_nothing_to_free() {
    let scene = SceneHandle::imported(17u32);
    let outcome = scene.after_postprocessing(false);
    match outcome {
        Ok(_) => panic!("a failed run gave a scene"),
        Err(e) => {
            assert_eq!(e, PostProcessError::SceneReleased);
            assert_eq!(e.message(), "apply_postprocessing failed, see output log for errors.");
        }
    }
    let copy = SceneHandle::copied(3u32);
    assert!(copy.after_postprocessing(false).is_err());
}

#[test]
fn a_copy_is_owned_apart_from_its_source() {
    let source = SceneHandle::imported("source");
    assert!(!source.is_mutable());
    let copy = source.owner_of_copy("copy");
    assert!(copy.is_mutable());
    assert_eq!(copy.kind(), SceneKind::Mutable);
    assert_eq!(source.kind(), SceneKind::Const);
    assert_eq!(copy.release(), ("copy", ReleaseCall::FreeScene));
    assert_eq!(source.release(), ("source", ReleaseCall::ReleaseImport));
}

#[test]
fn log_stream_attach_and_detach_once() {
    let mut stream = LogStream::new("stdout");
    assert!(!stream.attached());
    assert_eq!(stream.detach(), LogCall::Nothing);
    assert_eq!(stream.attach(), LogCall::Attach);
    assert!(stream.attached());
    assert_eq!(stream.attach(), LogCall::Nothing);
    assert!(stream.attached());
    assert_eq!(stream.detach(), LogCall::Detach);
    assert!(!stream.attached());
    assert_eq!(stream.detach(), LogCall::Nothing);
    assert_eq!(*stream.raw(), "stdout");
}

#[test]
fn log_stream_to_a_file() {
    assert!(LogStream::file("log.txt", false).is_none());
    let stream = LogStream::file("log.txt", true).unwrap();
    assert!(!stream.attached());
    assert_eq!(*stream.raw(), "log.txt");
    assert_eq!(verbose_logging_value(true), 1);
    assert_eq!(verbose_logging_value(false), 0);
}
