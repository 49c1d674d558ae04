//! Building the project that a document stands for.
use vstd::prelude::*;
use crate::document::{
    CameraCompJ, ColorJ, LightCompJ, MaterialPbrJ, MediaClipJ, MeshCompJ, MeshRefJ, NodeJ,
    ProjectJ, ProjectWrapperJ, QuatJ, SceneJ, ScreenCompJ, TimelineEventJ, TimelineJ, TrackMediaJ,
    TransformJ, Vec3J, clip_model, color_model, component_model,
    event_model, light_kind, light_model, material_model, mesh_model, meshref_model, node_model,
    opt_color_model, project_model, quat_model, scalar_or, scene_model, timeline_model,
    track_media_model, tracks_model, transform_model, vec3_model,
};
use crate::project::{
    CameraComponent, ColorRgba, Component, LightComponent, LightKind, MaterialPbr, MediaClip,
    MeshComponent, MeshRef, Node, Project, Quat, Scalar, Scene, ScreenComponent, Timeline,
    TimelineEvent, TimelineTrack, TimelineTrackView, TrackMedia, Transform, Vec3, ONE_BITS,
    view_opt, views,
};
use crate::text::{str_eq, text_or_empty};

verus! {

fn name_or_empty(name: Option<String>) -> (r: String)
    ensures
        r@ == text_or_empty(name),
{
    match name {
        Some(s) => s,
        None => String::new(),
    }
}

fn number_or(s: Option<Scalar>, missing: u32) -> (r: Scalar)
    ensures
        r == scalar_or(s, missing),
{
    match s {
        Some(s) => s,
        None => Scalar { bits: missing },
    }
}

/// The vector that a document's vector stands for.
pub fn to_proto_vec3(v: Vec3J) -> (r: Vec3)
    ensures
        r == vec3_model(v),
{
    Vec3 { x: v.x, y: v.y, z: v.z }
}

/// The rotation that a document's rotation stands for.
pub fn to_proto_quat(q: QuatJ) -> (r: Quat)
    ensures
        r == quat_model(q),
{
    Quat { x: q.x, y: q.y, z: q.z, w: q.w }
}

/// The transform that a document's transform stands for, with every part
/// present.
pub fn to_proto_transform(t: TransformJ) -> (r: Transform)
    ensures
        r == transform_model(t),
{
    Transform {
        position: Some(to_proto_vec3(t.position)),
        rotation: Some(to_proto_quat(t.rotation)),
        scale: Some(to_proto_vec3(t.scale)),
    }
}

/// The colour that a document's colour stands for.
pub fn to_proto_color(c: ColorJ) -> (r: ColorRgba)
    ensures
        r == color_model(c),
{
    ColorRgba { r: c.r, g: c.g, b: c.b, a: c.a }
}

fn to_proto_opt_color(c: Option<ColorJ>) -> (r: Option<ColorRgba>)
    ensures
        r == opt_color_model(c),
{
    match c {
        Some(c) => Some(to_proto_color(c)),
        None => None,
    }
}

/// The material that a document's material stands for: without textures, with
/// a metallic factor of 0 and a roughness of 1 where the document names none.
pub fn to_proto_material(m: MaterialPbrJ) -> (r: MaterialPbr)
    ensures
        r@ == material_model(m),
{
    MaterialPbr {
        id: m.id,
        name: name_or_empty(m.name),
        base_color: to_proto_opt_color(m.base_color),
        base_color_tex: None,
        metallic: number_or(m.metallic, 0),
        roughness: number_or(m.roughness, ONE_BITS),
        mr_tex: None,
        emissive: to_proto_opt_color(m.emissive),
        emissive_tex: None,
    }
}

/// The mesh reference that a document's mesh reference stands for; the name
/// of the node inside the mesh file is empty where the document names none.
pub fn to_proto_meshref(m: MeshRefJ) -> (r: MeshRef)
    ensures
        r@ == meshref_model(m),
{
    MeshRef { id: m.id, uri: m.uri, node: name_or_empty(m.node) }
}

/// The kind of light that a word names.
pub fn to_proto_light_kind(word: &str) -> (kind: LightKind)
    ensures
        kind == light_kind(word@),
{
    if str_eq(word, "DIRECTIONAL") {
        LightKind::Directional
    } else if str_eq(word, "SPOT") {
        LightKind::Spot
    } else {
        LightKind::Point
    }
}

fn to_proto_light(l: LightCompJ) -> (r: LightComponent)
    ensures
        r == light_model(l),
{
    LightComponent {
        kind: to_proto_light_kind(l.kind.as_str()),
        color: Some(to_proto_color(l.color)),
        intensity: l.intensity,
        range: l.range,
        spot_angle: number_or(l.spot_angle, 0),
    }
}

fn to_proto_mesh(m: MeshCompJ) -> (r: MeshComponent)
    ensures
        r@ == mesh_model(m),
{
    MeshComponent { mesh: Some(to_proto_meshref(m.mesh)), material_id: name_or_empty(m.material_id) }
}

/// The one component of a node that lists several.
fn to_proto_component(
    mesh: Option<MeshCompJ>,
    camera: Option<CameraCompJ>,
    light: Option<LightCompJ>,
    screen: Option<ScreenCompJ>,
) -> (r: Option<Component>)
    ensures
        view_opt(r) == component_model(mesh, camera, light, screen),
{
    let mut component: Option<Component> = None;
    match screen {
        Some(s) => {
            component = Some(
                Component::Screen(ScreenComponent { pixels_x: s.pixels_x, pixels_y: s.pixels_y }),
            );
        },
        None => {},
    }
    match light {
        Some(l) => {
            component = Some(Component::Light(to_proto_light(l)));
        },
        None => {},
    }
    match camera {
        Some(c) => {
            component = Some(
                Component::Camera(CameraComponent { fov_deg: c.fov_deg, near: c.near, far: c.far }),
            );
        },
        None => {},
    }
    match mesh {
        Some(m) => {
            component = Some(Component::Mesh(to_proto_mesh(m)));
        },
        None => {},
    }
    component
}

/// The node that a document's node stands for, with everything below it.
pub fn to_proto_node(n: NodeJ) -> (r: Node)
    ensures
        r@ == node_model(n),
    decreases n,
{
    let ghost all = n.children@;
    let mut children: Vec<Node> = Vec::new();
    for c in it: n.children
        invariant
            it.seq() == all,
            children@.len() == it.index(),
            forall|k: int|
                0 <= k < children@.len() ==> (#[trigger] children@[k])@ == node_model(all[k]),
    {
        children.push(to_proto_node(c));
    }
    let node = Node {
        id: n.id,
        name: name_or_empty(n.name),
        transform: Some(to_proto_transform(n.transform)),
        children,
        component: to_proto_component(n.mesh, n.camera, n.light, n.screen),
    };
    assert(node@.children =~= node_model(n).children);
    node
}

/// The scene that a document's scene stands for.
pub fn to_proto_scene(s: SceneJ) -> (r: Scene)
    ensures
        r@ == scene_model(s),
{
    let ghost all_materials = s.materials@;
    let mut materials: Vec<MaterialPbr> = Vec::new();
    for m in it: s.materials
        invariant
            it.seq() == all_materials,
            materials@.len() == it.index(),
            forall|k: int|
                0 <= k < materials@.len() ==> (#[trigger] materials@[k])@ == material_model(
                    all_materials[k],
                ),
    {
        materials.push(to_proto_material(m));
    }
    let ghost all_meshes = s.meshes@;
    let mut meshes: Vec<MeshRef> = Vec::new();
    for m in it: s.meshes
        invariant
            it.seq() == all_meshes,
            meshes@.len() == it.index(),
            forall|k: int|
                0 <= k < meshes@.len() ==> (#[trigger] meshes@[k])@ == meshref_model(all_meshes[k]),
    {
        meshes.push(to_proto_meshref(m));
    }
    let ghost all_roots = s.roots@;
    let mut roots: Vec<Node> = Vec::new();
    for n in it: s.roots
        invariant
            it.seq() == all_roots,
            roots@.len() == it.index(),
            forall|k: int| 0 <= k < roots@.len() ==> (#[trigger] roots@[k])@ == node_model(all_roots[k]),
    {
        roots.push(to_proto_node(n));
    }
    let scene = Scene { id: s.id, name: name_or_empty(s.name), materials, meshes, roots };
    assert(scene@.materials =~= scene_model(s).materials);
    assert(scene@.meshes =~= scene_model(s).meshes);
    assert(scene@.roots =~= scene_model(s).roots);
    scene
}

fn to_proto_clip(c: MediaClipJ) -> (r: MediaClip)
    ensures
        r@ == clip_model(c),
{
    MediaClip { id: c.id, name: name_or_empty(c.name), uri: c.uri, duration: c.duration }
}

fn to_proto_track_media(m: TrackMediaJ) -> (r: TrackMedia)
    ensures
        r@ == track_media_model(m),
{
    TrackMedia {
        target_node_id: m.target_node_id,
        clip_id: m.clip_id,
        in_time: m.in_time,
        out_time: m.out_time,
        start_at: m.start_at,
    }
}

fn to_proto_event(e: TimelineEventJ) -> (r: TimelineEvent)
    ensures
        r@ == event_model(e),
{
    TimelineEvent { t: e.t, action: e.action, params: e.params }
}

/// The timeline that a document's timeline stands for: its tracks without the
/// empty ones, and all its events.
pub fn to_proto_timeline(t: TimelineJ) -> (r: Timeline)
    ensures
        r@ == timeline_model(t),
{
    let ghost all_tracks = t.tracks@;
    let mut tracks: Vec<TimelineTrack> = Vec::new();
    for track in it: t.tracks
        invariant
            it.seq() == all_tracks,
            views(tracks@) == tracks_model(all_tracks, it.index() as nat),
    {
        let ghost before = views(tracks@);
        match track.media {
            Some(m) => {
                tracks.push(TimelineTrack { media: Some(to_proto_track_media(m)) });
                assert(views(tracks@) =~= before.push(
                    TimelineTrackView { media: Some(track_media_model(m)) },
                ));
            },
            None => {},
        }
    }
    let ghost all_events = t.events@;
    let mut events: Vec<TimelineEvent> = Vec::new();
    for e in it: t.events
        invariant
            it.seq() == all_events,
            events@.len() == it.index(),
            forall|k: int|
                0 <= k < events@.len() ==> (#[trigger] events@[k])@ == event_model(all_events[k]),
    {
        events.push(to_proto_event(e));
    }
    let timeline = Timeline {
        id: t.id,
        name: name_or_empty(t.name),
        tracks,
        events,
        duration: t.duration,
    };
    assert(timeline@.events =~= timeline_model(t).events);
    timeline
}

/// The project that a document stands for.
pub fn to_proto_project(p: ProjectJ) -> (r: Project)
    ensures
        r@ == project_model(p),
{
    let ghost all_media = p.media@;
    let mut media: Vec<MediaClip> = Vec::new();
    for c in it: p.media
        invariant
            it.seq() == all_media,
            media@.len() == it.index(),
            forall|k: int| 0 <= k < media@.len() ==> (#[trigger] media@[k])@ == clip_model(all_media[k]),
    {
        media.push(to_proto_clip(c));
    }
    let project = Project {
        id: p.id,
        name: name_or_empty(p.name),
        scene: Some(to_proto_scene(p.scene)),
        media,
        timeline: Some(to_proto_timeline(p.timeline)),
    };
    assert(project@.media =~= project_model(p).media);
    project
}

/// The project inside the outermost object of a document.
pub fn json_to_project(wrapper: ProjectWrapperJ) -> (r: Project)
    ensures
        r@ == project_model(wrapper.project),
{
    to_proto_project(wrapper.project)
}

} // verus!
