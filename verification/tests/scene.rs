use constellation_display::project::{
    CameraComponent, Component, LightComponent, LightKind, MeshComponent, Node, Project, Quat,
    Scalar, Scene, ScreenComponent, Transform, Vec3, ONE_BITS,
};
use constellation_display::scene::{
    collect_instances, copy_instance, copy_instances, instances_from_project, resolve_transform,
    InstanceData, Trs,
};

fn s(x: f32) -> Scalar {
    Scalar { bits: x.to_bits() }
}

fn v3(x: f32, y: f32, z: f32) -> Vec3 {
    Vec3 { x: s(x), y: s(y), z: s(z) }
}

fn identity() -> Trs {
    Trs {
        scale: v3(1.0, 1.0, 1.0),
        rotation: Quat { x: s(0.0), y: s(0.0), z: s(0.0), w: s(1.0) },
        position: v3(0.0, 0.0, 0.0),
    }
}

fn scaled(k: f32) -> Transform {
    Transform { position: None, rotation: None, scale: Some(v3(k, k, k)) }
}

fn moved(x: f32, y: f32, z: f32) -> Transform {
    Transform { position: Some(v3(x, y, z)), rotation: None, scale: None }
}

fn screen() -> Option<Component> {
    Some(Component::Screen(ScreenComponent { pixels_x: 1920, pixels_y: 1080 }))
}

fn node(id: &str, transform: Option<Transform>, component: Option<Component>, children: Vec<Node>) -> Node {
    Node { id: id.to_string(), name: String::new(), transform, children, component }
}

fn project(roots: Vec<Node>) -> Project {
    Project {
        id: "p".to_string(),
        name: String::new(),
        scene: Some(Scene {
            id: "s".to_string(),
            name: String::new(),
            materials: Vec::new(),
            meshes: Vec::new(),
            roots,
        }),
        media: Vec::new(),
        timeline: None,
    }
}

fn matrix(t: &Trs) -> glam::Mat4 {
    let f = |x: Scalar| f32::from_bits(x.bits);
    glam::Mat4::from_scale_rotation_translation(
        glam::Vec3::new(f(t.scale.x), f(t.scale.y), f(t.scale.z)),
        glam::Quat::from_xyzw(f(t.rotation.x), f(t.rotation.y), f(t.rotation.z), f(t.rotation.w)),
        glam::Vec3::new(f(t.position.x), f(t.position.y), f(t.position.z)),
    )
}

fn world(inst: &InstanceData) -> glam::Mat4 {
    inst.chain.iter().fold(glam::Mat4::IDENTITY, |parent, local| parent * matrix(local))
}

#[test]
fn one_is_the_bit_pattern_of_one() {
    assert_eq!(ONE_BITS, 1.0f32.to_bits());
    assert_eq!(0u32, 0.0f32.to_bits());
}

#[test]
fn missing_transform_is_identity() {
    assert_eq!(resolve_transform(&None), identity());
    let none = Transform { position: None, rotation: None, scale: None };
    assert_eq!(resolve_transform(&Some(none)), identity());
    assert_eq!(matrix(&identity()), glam::Mat4::IDENTITY);
}

#[test]
fn present_parts_are_kept_and_missing_parts_default() {
    let q = Quat { x: s(0.5), y: s(0.5), z: s(0.5), w: s(0.5) };
    let t = Transform { position: Some(v3(1.0, 2.0, 3.0)), rotation: Some(q), scale: None };
    let r = resolve_transform(&Some(t));
    assert_eq!(r.position, v3(1.0, 2.0, 3.0));
    assert_eq!(r.rotation, q);
    assert_eq!(r.scale, v3(1.0, 1.0, 1.0));
    let r2 = resolve_transform(&Some(scaled(2.0)));
    assert_eq!(r2.position, v3(0.0, 0.0, 0.0));
    assert_eq!(r2.rotation, identity().rotation);
    assert_eq!(r2.scale, v3(2.0, 2.0, 2.0));
}

#[test]
fn project_without_scene_has_no_instances() {
    let mut p = project(vec![node("a", None, screen(), Vec::new())]);
    p.scene = None;
    assert_eq!(instances_from_project(&p), Vec::new());
}

#[test]
fn single_screen_at_root() {
    let t = Transform { position: Some(v3(0.0, 0.0, 0.0)), rotation: None, scale: Some(v3(2.0, 1.0, 1.0)) };
    let p = project(vec![node("screen", Some(t), screen(), Vec::new())]);
    let list = instances_from_project(&p);
    assert_eq!(list.len(), 1);
    assert_eq!(list[0].node_id, "screen");
    assert_eq!(list[0].chain, vec![resolve_transform(&Some(t))]);
    let m = world(&list[0]);
    assert_eq!(m.to_cols_array_2d()[0], [2.0, 0.0, 0.0, 0.0]);
    assert_eq!(m.to_cols_array_2d()[1], [0.0, 1.0, 0.0, 0.0]);
    assert_eq!(m.to_cols_array_2d()[3], [0.0, 0.0, 0.0, 1.0]);
}

#[test]
fn only_screens_are_listed_in_depth_first_order() {
    let light = Some(Component::Light(LightComponent {
        kind: LightKind::Spot,
        color: None,
        intensity: s(1.0),
        range: s(10.0),
        spot_angle: s(0.5),
    }));
    let camera = Some(Component::Camera(CameraComponent { fov_deg: s(45.0), near: s(0.1), far: s(100.0) }));
    let mesh = Some(Component::Mesh(MeshComponent { mesh: None, material_id: String::new() }));
    let roots = vec![
        node(
            "a",
            None,
            screen(),
            vec![
                node("a1", None, light, vec![node("a1x", None, screen(), Vec::new())]),
                node("a2", None, screen(), Vec::new()),
            ],
        ),
        node("b", None, camera, Vec::new()),
        node("c", None, mesh, vec![node("c1", None, screen(), Vec::new())]),
        node("d", None, None, vec![node("d1", None, screen(), Vec::new())]),
    ];
    let list = instances_from_project(&project(roots));
    let ids: Vec<&str> = list.iter().map(|i| i.node_id.as_str()).collect();
    assert_eq!(ids, vec!["a", "a1x", "a2", "c1", "d1"]);
    let depths: Vec<usize> = list.iter().map(|i| i.chain.len()).collect();
    assert_eq!(depths, vec![1, 3, 2, 2, 2]);
}

#[test]
fn chain_holds_ancestors_root_first() {
    let t1 = scaled(2.0);
    let t2 = moved(1.0, 0.0, 0.0);
    let roots = vec![node(
        "t1",
        Some(t1),
        None,
        vec![node("t2", Some(t2), None, vec![node("screen", None, screen(), Vec::new())])],
    )];
    let list = instances_from_project(&project(roots));
    assert_eq!(list.len(), 1);
    assert_eq!(
        list[0].chain,
        vec![resolve_transform(&Some(t1)), resolve_transform(&Some(t2)), identity()]
    );
}

#[test]
fn nested_screen_has_product_of_ancestor_matrices() {
    let roots = vec![node(
        "t1",
        Some(scaled(2.0)),
        None,
        vec![node(
            "t2",
            Some(moved(1.0, 0.0, 0.0)),
            None,
            vec![node("screen", None, screen(), Vec::new())],
        )],
    )];
    let list = instances_from_project(&project(roots));
    let m = world(&list[0]);
    let (scale, _rotation, translation) = m.to_scale_rotation_translation();
    assert_eq!(translation, glam::Vec3::new(2.0, 0.0, 0.0));
    assert_eq!(scale, glam::Vec3::new(2.0, 2.0, 2.0));
}

#[test]
fn flattening_twice_gives_the_same_list() {
    let build = || {
        project(vec![node(
            "a",
            Some(scaled(3.0)),
            screen(),
            vec![node("b", Some(moved(0.0, 1.0, 0.0)), screen(), Vec::new())],
        )])
    };
    assert_eq!(instances_from_project(&build()), instances_from_project(&build()));
}

#[test]
fn collect_appends_after_what_is_there() {
    let n = node("a", Some(scaled(2.0)), screen(), vec![node("b", None, screen(), Vec::new())]);
    let parent = vec![resolve_transform(&Some(moved(5.0, 0.0, 0.0)))];
    let mut out = vec![InstanceData { chain: Vec::new(), node_id: "before".to_string() }];
    collect_instances(&n, &parent, &mut out);
    assert_eq!(out.len(), 3);
    assert_eq!(out[0].node_id, "before");
    assert_eq!(out[1].node_id, "a");
    assert_eq!(out[1].chain, vec![parent[0], resolve_transform(&Some(scaled(2.0)))]);
    assert_eq!(out[2].node_id, "b");
    assert_eq!(out[2].chain, vec![parent[0], resolve_transform(&Some(scaled(2.0))), identity()]);
}

#[test]
fn copies_are_equal_to_what_they_copy() {
    let inst = InstanceData { chain: vec![identity(), resolve_transform(&Some(scaled(2.0)))], node_id: "n".to_string() };
    assert_eq!(copy_instance(&inst), inst);
    let list = vec![inst, InstanceData { chain: Vec::new(), node_id: "m".to_string() }];
    assert_eq!(copy_instances(&list), list);
}
