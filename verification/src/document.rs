//! The project document as an editor writes it, and the project that each
//! part of a document stands for.
//!
//! A document differs from a project in what it may leave out: names are
//! optional, a node lists its components side by side, a light names its kind
//! in words, and a timeline track may be empty.
use vstd::prelude::*;
use crate::project::{
    CameraComponent, ColorRgba, ComponentView, EventParam, LightComponent, LightKind,
    MaterialPbrView, MediaClipView, MeshComponentView, MeshRefView, NodeView, ProjectView, Quat,
    Scalar, SceneView, ScreenComponent, TimelineEventView, TimelineTrackView, TimelineView,
    TrackMediaView, Transform, Vec3, ONE_BITS, views,
};
use crate::text::text_or_empty;

verus! {

#[derive(Clone, Copy, Debug, PartialEq, Eq)]
pub struct Vec3J {
    pub x: Scalar,
    pub y: Scalar,
    pub z: Scalar,
}

#[derive(Clone, Copy, Debug, PartialEq, Eq)]
pub struct QuatJ {
    pub x: Scalar,
    pub y: Scalar,
    pub z: Scalar,
    pub w: Scalar,
}

#[derive(Clone, Copy, Debug, PartialEq, Eq)]
pub struct TransformJ {
    pub position: Vec3J,
    pub rotation: QuatJ,
    pub scale: Vec3J,
}

#[derive(Clone, Copy, Debug, PartialEq, Eq)]
pub struct ColorJ {
    pub r: Scalar,
    pub g: Scalar,
    pub b: Scalar,
    pub a: Scalar,
}

#[derive(Clone, Debug, PartialEq, Eq)]
pub struct MaterialPbrJ {
    pub id: String,
    pub name: Option<String>,
    pub base_color: Option<ColorJ>,
    pub metallic: Option<Scalar>,
    pub roughness: Option<Scalar>,
    pub emissive: Option<ColorJ>,
}

#[derive(Clone, Debug, PartialEq, Eq)]
pub struct MeshRefJ {
    pub id: String,
    pub uri: String,
    pub node: Option<String>,
}

#[derive(Clone, Debug, PartialEq, Eq)]
pub struct MeshCompJ {
    pub mesh: MeshRefJ,
    pub material_id: Option<String>,
}

/// A light; `kind` is one of `POINT`, `DIRECTIONAL` and `SPOT`.
#[derive(Clone, Debug, PartialEq, Eq)]
pub struct LightCompJ {
    pub kind: String,
    pub color: ColorJ,
    pub intensity: Scalar,
    pub range: Scalar,
    pub spot_angle: Option<Scalar>,
}

#[derive(Clone, Copy, Debug, PartialEq, Eq)]
pub struct ScreenCompJ {
    pub pixels_x: i32,
    pub pixels_y: i32,
}

#[derive(Clone, Copy, Debug, PartialEq, Eq)]
pub struct CameraCompJ {
    pub fov_deg: Scalar,
    pub near: Scalar,
    pub far: Scalar,
}

#[derive(Debug, PartialEq, Eq)]
pub struct NodeJ {
    pub id: String,
    pub name: Option<String>,
    pub transform: TransformJ,
    pub children: Vec<NodeJ>,
    pub mesh: Option<MeshCompJ>,
    pub light: Option<LightCompJ>,
    pub screen: Option<ScreenCompJ>,
    pub camera: Option<CameraCompJ>,
}

#[derive(Debug, PartialEq, Eq)]
pub struct SceneJ {
    pub id: String,
    pub name: Option<String>,
    pub materials: Vec<MaterialPbrJ>,
    pub meshes: Vec<MeshRefJ>,
    pub roots: Vec<NodeJ>,
}

#[derive(Clone, Debug, PartialEq, Eq)]
pub struct MediaClipJ {
    pub id: String,
    pub name: Option<String>,
    pub uri: String,
    pub duration: i64,
}

#[derive(Clone, Debug, PartialEq, Eq)]
pub struct TrackMediaJ {
    pub target_node_id: String,
    pub clip_id: String,
    pub in_time: i64,
    pub out_time: i64,
    pub start_at: i64,
}

#[derive(Clone, Debug, PartialEq, Eq)]
pub struct TimelineTrackJ {
    pub media: Option<TrackMediaJ>,
}

#[derive(Clone, Debug, PartialEq, Eq)]
pub struct TimelineEventJ {
    pub t: i64,
    pub action: String,
    pub params: Vec<EventParam>,
}

#[derive(Clone, Debug, PartialEq, Eq)]
pub struct TimelineJ {
    pub id: String,
    pub name: Option<String>,
    pub tracks: Vec<TimelineTrackJ>,
    pub events: Vec<TimelineEventJ>,
    pub duration: i64,
}

#[derive(Debug, PartialEq, Eq)]
pub struct ProjectJ {
    pub id: String,
    pub name: Option<String>,
    pub scene: SceneJ,
    pub media: Vec<MediaClipJ>,
    pub timeline: TimelineJ,
}

#[derive(Debug, PartialEq, Eq)]
pub struct ProjectWrapperJ {
    pub project: ProjectJ,
}

// ------------------------------------------------ what a document stands for

pub open spec fn vec3_model(v: Vec3J) -> Vec3 {
    Vec3 { x: v.x, y: v.y, z: v.z }
}

pub open spec fn quat_model(q: QuatJ) -> Quat {
    Quat { x: q.x, y: q.y, z: q.z, w: q.w }
}

pub open spec fn color_model(c: ColorJ) -> ColorRgba {
    ColorRgba { r: c.r, g: c.g, b: c.b, a: c.a }
}

pub open spec fn opt_color_model(c: Option<ColorJ>) -> Option<ColorRgba> {
    match c {
        Some(c) => Some(color_model(c)),
        None => None,
    }
}

/// A document's transform has every part.
pub open spec fn transform_model(t: TransformJ) -> Transform {
    Transform {
        position: Some(vec3_model(t.position)),
        rotation: Some(quat_model(t.rotation)),
        scale: Some(vec3_model(t.scale)),
    }
}

/// An optional number, with `missing` in place of an absent one.
pub open spec fn scalar_or(s: Option<Scalar>, missing: u32) -> Scalar {
    match s {
        Some(s) => s,
        None => Scalar { bits: missing },
    }
}

/// A material without textures; a missing metallic factor is 0, a missing
/// roughness is 1.
pub open spec fn material_model(m: MaterialPbrJ) -> MaterialPbrView {
    MaterialPbrView {
        id: m.id@,
        name: text_or_empty(m.name),
        base_color: opt_color_model(m.base_color),
        base_color_tex: None,
        metallic: scalar_or(m.metallic, 0),
        roughness: scalar_or(m.roughness, ONE_BITS),
        mr_tex: None,
        emissive: opt_color_model(m.emissive),
        emissive_tex: None,
    }
}

pub open spec fn meshref_model(m: MeshRefJ) -> MeshRefView {
    MeshRefView { id: m.id@, uri: m.uri@, node: text_or_empty(m.node) }
}

/// The kind of light that a word names: a point light unless the word is
/// `DIRECTIONAL` or `SPOT`.
pub open spec fn light_kind(word: Seq<char>) -> LightKind {
    if word == "DIRECTIONAL"@ {
        LightKind::Directional
    } else if word == "SPOT"@ {
        LightKind::Spot
    } else {
        LightKind::Point
    }
}

pub open spec fn light_model(l: LightCompJ) -> LightComponent {
    LightComponent {
        kind: light_kind(l.kind@),
        color: Some(color_model(l.color)),
        intensity: l.intensity,
        range: l.range,
        spot_angle: scalar_or(l.spot_angle, 0),
    }
}

pub open spec fn mesh_model(m: MeshCompJ) -> MeshComponentView {
    MeshComponentView { mesh: Some(meshref_model(m.mesh)), material_id: text_or_empty(m.material_id) }
}

/// The one component of a node that lists several: a mesh before a camera, a
/// camera before a light, a light before a screen.
pub open spec fn component_model(
    mesh: Option<MeshCompJ>,
    camera: Option<CameraCompJ>,
    light: Option<LightCompJ>,
    screen: Option<ScreenCompJ>,
) -> Option<ComponentView> {
    match (mesh, camera, light, screen) {
        (Some(m), _, _, _) => Some(ComponentView::Mesh(mesh_model(m))),
        (None, Some(c), _, _) => Some(
            ComponentView::Camera(CameraComponent { fov_deg: c.fov_deg, near: c.near, far: c.far }),
        ),
        (None, None, Some(l), _) => Some(ComponentView::Light(light_model(l))),
        (None, None, None, Some(s)) => Some(
            ComponentView::Screen(ScreenComponent { pixels_x: s.pixels_x, pixels_y: s.pixels_y }),
        ),
        (None, None, None, None) => None,
    }
}

pub open spec fn node_model(n: NodeJ) -> NodeView
    decreases n,
{
    NodeView {
        id: n.id@,
        name: text_or_empty(n.name),
        transform: Some(transform_model(n.transform)),
        children: Seq::new(
            n.children@.len(),
            |i: int|
                if 0 <= i < n.children@.len() {
                    node_model(n.children@[i])
                } else {
                    arbitrary()
                },
        ),
        component: component_model(n.mesh, n.camera, n.light, n.screen),
    }
}

pub open spec fn scene_model(s: SceneJ) -> SceneView {
    SceneView {
        id: s.id@,
        name: text_or_empty(s.name),
        materials: Seq::new(s.materials@.len(), |i: int| material_model(s.materials@[i])),
        meshes: Seq::new(s.meshes@.len(), |i: int| meshref_model(s.meshes@[i])),
        roots: Seq::new(s.roots@.len(), |i: int| node_model(s.roots@[i])),
    }
}

pub open spec fn clip_model(c: MediaClipJ) -> MediaClipView {
    MediaClipView {
        id: c.id@,
        name: text_or_empty(c.name),
        uri: c.uri@,
        duration: c.duration as int,
    }
}

pub open spec fn track_media_model(m: TrackMediaJ) -> TrackMediaView {
    TrackMediaView {
        target_node_id: m.target_node_id@,
        clip_id: m.clip_id@,
        in_time: m.in_time as int,
        out_time: m.out_time as int,
        start_at: m.start_at as int,
    }
}

/// The tracks that the first `count` tracks of a document stand for: those
/// with media, in order. An empty track stands for nothing.
pub open spec fn tracks_model(tracks: Seq<TimelineTrackJ>, count: nat) -> Seq<TimelineTrackView>
    decreases count,
{
    if count == 0 || count > tracks.len() {
        Seq::empty()
    } else {
        let before = tracks_model(tracks, (count - 1) as nat);
        match tracks[count - 1].media {
            Some(m) => before.push(TimelineTrackView { media: Some(track_media_model(m)) }),
            None => before,
        }
    }
}

pub open spec fn event_model(e: TimelineEventJ) -> TimelineEventView {
    TimelineEventView { t: e.t as int, action: e.action@, params: views(e.params@) }
}

pub open spec fn timeline_model(t: TimelineJ) -> TimelineView {
    TimelineView {
        id: t.id@,
        name: text_or_empty(t.name),
        tracks: tracks_model(t.tracks@, t.tracks@.len()),
        events: Seq::new(t.events@.len(), |i: int| event_model(t.events@[i])),
        duration: t.duration as int,
    }
}

/// The project that a document stands for. It always has a scene and a
/// timeline.
pub open spec fn project_model(p: ProjectJ) -> ProjectView {
    ProjectView {
        id: p.id@,
        name: text_or_empty(p.name),
        scene: Some(scene_model(p.scene)),
        media: Seq::new(p.media@.len(), |i: int| clip_model(p.media@[i])),
        timeline: Some(timeline_model(p.timeline)),
    }
}

} // verus!
