//! The in-memory project: a scene graph, a media list and a timeline, each with
//! the mathematical view that the contracts of this crate speak about.
use vstd::prelude::*;

verus! {

/// Bit pattern of 1.0 in IEEE-754 binary32.
pub const ONE_BITS: u32 = 0x3f80_0000;

/// A 32-bit floating-point number held as its IEEE-754 bit pattern.
#[derive(Clone, Copy, Debug, PartialEq, Eq)]
pub struct Scalar {
    pub bits: u32,
}

#[derive(Clone, Copy, Debug, PartialEq, Eq)]
pub struct Vec3 {
    pub x: Scalar,
    pub y: Scalar,
    pub z: Scalar,
}

#[derive(Clone, Copy, Debug, PartialEq, Eq)]
pub struct Quat {
    pub x: Scalar,
    pub y: Scalar,
    pub z: Scalar,
    pub w: Scalar,
}

#[derive(Clone, Copy, Debug, PartialEq, Eq)]
pub struct ColorRgba {
    pub r: Scalar,
    pub g: Scalar,
    pub b: Scalar,
    pub a: Scalar,
}

/// Position, rotation and scale of a node relative to its parent; a missing
/// part stands for the identity.
#[derive(Clone, Copy, Debug, PartialEq, Eq)]
pub struct Transform {
    pub position: Option<Vec3>,
    pub rotation: Option<Quat>,
    pub scale: Option<Vec3>,
}

#[derive(Clone, Copy, Debug, PartialEq, Eq)]
pub struct ScreenComponent {
    pub pixels_x: i32,
    pub pixels_y: i32,
}

/// The kinds of light, which go on the wire as 0, 1 and 2.
#[derive(Clone, Copy, Debug, PartialEq, Eq)]
pub enum LightKind {
    Point,
    Directional,
    Spot,
}

impl LightKind {
    /// The number that stands for a kind of light on the wire.
    pub open spec fn spec_code(self) -> i32 {
        match self {
            LightKind::Point => 0,
            LightKind::Directional => 1,
            LightKind::Spot => 2,
        }
    }

    /// The kind of light that a number stands for: a point light unless the
    /// number is 1 or 2.
    pub open spec fn spec_from_code(code: i32) -> LightKind {
        if code == 1 {
            LightKind::Directional
        } else if code == 2 {
            LightKind::Spot
        } else {
            LightKind::Point
        }
    }

    /// The number that stands for a kind of light on the wire.
    #[verifier::when_used_as_spec(spec_code)]
    pub fn code(self) -> (c: i32)
        ensures
            c == self.spec_code(),
            LightKind::spec_from_code(c) == self,
    {
        match self {
            LightKind::Point => 0,
            LightKind::Directional => 1,
            LightKind::Spot => 2,
        }
    }

    /// The kind of light that a number stands for.
    #[verifier::when_used_as_spec(spec_from_code)]
    pub fn from_code(code: i32) -> (kind: LightKind)
        ensures
            kind == LightKind::spec_from_code(code),
    {
        if code == 1 {
            LightKind::Directional
        } else if code == 2 {
            LightKind::Spot
        } else {
            LightKind::Point
        }
    }
}

#[derive(Clone, Copy, Debug, PartialEq, Eq)]
pub struct LightComponent {
    pub kind: LightKind,
    pub color: Option<ColorRgba>,
    pub intensity: Scalar,
    pub range: Scalar,
    pub spot_angle: Scalar,
}

#[derive(Clone, Copy, Debug, PartialEq, Eq)]
pub struct CameraComponent {
    pub fov_deg: Scalar,
    pub near: Scalar,
    pub far: Scalar,
}

#[derive(Clone, Debug, PartialEq, Eq)]
pub struct MeshRef {
    pub id: String,
    pub uri: String,
    pub node: String,
}

#[derive(Clone, Debug, PartialEq, Eq)]
pub struct MeshComponent {
    pub mesh: Option<MeshRef>,
    pub material_id: String,
}

/// The one component a node may carry. Only a screen is drawn.
#[derive(Clone, Debug, PartialEq, Eq)]
pub enum Component {
    Screen(ScreenComponent),
    Light(LightComponent),
    Camera(CameraComponent),
    Mesh(MeshComponent),
}

/// A node of the scene graph, with the nodes below it. Ids are unique within
/// a project.
#[derive(Debug, PartialEq, Eq)]
pub struct Node {
    pub id: String,
    pub name: String,
    pub transform: Option<Transform>,
    pub children: Vec<Node>,
    pub component: Option<Component>,
}

#[derive(Clone, Debug, PartialEq, Eq)]
pub struct TextureRef {
    pub uri: String,
}

#[derive(Clone, Debug, PartialEq, Eq)]
pub struct MaterialPbr {
    pub id: String,
    pub name: String,
    pub base_color: Option<ColorRgba>,
    pub base_color_tex: Option<TextureRef>,
    pub metallic: Scalar,
    pub roughness: Scalar,
    pub mr_tex: Option<TextureRef>,
    pub emissive: Option<ColorRgba>,
    pub emissive_tex: Option<TextureRef>,
}

/// The scene: materials, meshes, and the roots of the scene graph.
#[derive(Debug, PartialEq, Eq)]
pub struct Scene {
    pub id: String,
    pub name: String,
    pub materials: Vec<MaterialPbr>,
    pub meshes: Vec<MeshRef>,
    pub roots: Vec<Node>,
}

/// A piece of media. `duration` is in nanoseconds.
#[derive(Clone, Debug, PartialEq, Eq)]
pub struct MediaClip {
    pub id: String,
    pub name: String,
    pub uri: String,
    pub duration: i64,
}

/// Places a clip on a node: the clip is active for the node at timeline time
/// `t` when `start_at + in_time <= t < start_at + out_time`, all in nanoseconds.
#[derive(Clone, Debug, PartialEq, Eq)]
pub struct TrackMedia {
    pub target_node_id: String,
    pub clip_id: String,
    pub in_time: i64,
    pub out_time: i64,
    pub start_at: i64,
}

/// An entry of the timeline; only a media entry has a meaning.
#[derive(Clone, Debug, PartialEq, Eq)]
pub struct TimelineTrack {
    pub media: Option<TrackMedia>,
}

#[derive(Clone, Debug, PartialEq, Eq)]
pub struct EventParam {
    pub key: String,
    pub value: String,
}

/// Something to do at timeline time `t`, in nanoseconds. Events are carried
/// and not yet acted on.
#[derive(Clone, Debug, PartialEq, Eq)]
pub struct TimelineEvent {
    pub t: i64,
    pub action: String,
    pub params: Vec<EventParam>,
}

/// The timeline: tracks in the order in which they were laid down, and
/// events. `duration` is in nanoseconds.
#[derive(Clone, Debug, PartialEq, Eq)]
pub struct Timeline {
    pub id: String,
    pub name: String,
    pub tracks: Vec<TimelineTrack>,
    pub events: Vec<TimelineEvent>,
    pub duration: i64,
}

/// A project: a scene, the media it shows, and the timeline that says when.
#[derive(Debug, PartialEq, Eq)]
pub struct Project {
    pub id: String,
    pub name: String,
    pub scene: Option<Scene>,
    pub media: Vec<MediaClip>,
    pub timeline: Option<Timeline>,
}

// ---------------------------------------------------------------- views

pub struct MeshRefView {
    pub id: Seq<char>,
    pub uri: Seq<char>,
    pub node: Seq<char>,
}

pub struct MeshComponentView {
    pub mesh: Option<MeshRefView>,
    pub material_id: Seq<char>,
}

pub enum ComponentView {
    Screen(ScreenComponent),
    Light(LightComponent),
    Camera(CameraComponent),
    Mesh(MeshComponentView),
}

pub struct NodeView {
    pub id: Seq<char>,
    pub name: Seq<char>,
    pub transform: Option<Transform>,
    pub children: Seq<NodeView>,
    pub component: Option<ComponentView>,
}

pub struct TextureRefView {
    pub uri: Seq<char>,
}

pub struct MaterialPbrView {
    pub id: Seq<char>,
    pub name: Seq<char>,
    pub base_color: Option<ColorRgba>,
    pub base_color_tex: Option<TextureRefView>,
    pub metallic: Scalar,
    pub roughness: Scalar,
    pub mr_tex: Option<TextureRefView>,
    pub emissive: Option<ColorRgba>,
    pub emissive_tex: Option<TextureRefView>,
}

pub struct SceneView {
    pub id: Seq<char>,
    pub name: Seq<char>,
    pub materials: Seq<MaterialPbrView>,
    pub meshes: Seq<MeshRefView>,
    pub roots: Seq<NodeView>,
}

pub struct MediaClipView {
    pub id: Seq<char>,
    pub name: Seq<char>,
    pub uri: Seq<char>,
    pub duration: int,
}

pub struct TrackMediaView {
    pub target_node_id: Seq<char>,
    pub clip_id: Seq<char>,
    pub in_time: int,
    pub out_time: int,
    pub start_at: int,
}

pub struct TimelineTrackView {
    pub media: Option<TrackMediaView>,
}

pub struct EventParamView {
    pub key: Seq<char>,
    pub value: Seq<char>,
}

pub struct TimelineEventView {
    pub t: int,
    pub action: Seq<char>,
    pub params: Seq<EventParamView>,
}

pub struct TimelineView {
    pub id: Seq<char>,
    pub name: Seq<char>,
    pub tracks: Seq<TimelineTrackView>,
    pub events: Seq<TimelineEventView>,
    pub duration: int,
}

pub struct ProjectView {
    pub id: Seq<char>,
    pub name: Seq<char>,
    pub scene: Option<SceneView>,
    pub media: Seq<MediaClipView>,
    pub timeline: Option<TimelineView>,
}

/// The views of the items of a sequence, in order.
pub open spec fn views<T: View>(s: Seq<T>) -> Seq<T::V> {
    Seq::new(s.len(), |i: int| s[i]@)
}

/// The view of an optional item.
pub open spec fn view_opt<T: View>(o: Option<T>) -> Option<T::V> {
    match o {
        Some(x) => Some(x@),
        None => None,
    }
}

impl View for MeshRef {
    type V = MeshRefView;

    open spec fn view(&self) -> MeshRefView {
        MeshRefView { id: self.id@, uri: self.uri@, node: self.node@ }
    }
}

impl View for MeshComponent {
    type V = MeshComponentView;

    open spec fn view(&self) -> MeshComponentView {
        MeshComponentView { mesh: view_opt(self.mesh), material_id: self.material_id@ }
    }
}

impl View for Component {
    type V = ComponentView;

    open spec fn view(&self) -> ComponentView {
        match *self {
            Component::Screen(s) => ComponentView::Screen(s),
            Component::Light(l) => ComponentView::Light(l),
            Component::Camera(c) => ComponentView::Camera(c),
            Component::Mesh(m) => ComponentView::Mesh(m@),
        }
    }
}

/// The view of a node: its own fields and, recursively, its children's views.
pub open spec fn node_view(n: Node) -> NodeView
    decreases n,
{
    NodeView {
        id: n.id@,
        name: n.name@,
        transform: n.transform,
        children: Seq::new(
            n.children@.len(),
            |i: int|
                if 0 <= i < n.children@.len() {
                    node_view(n.children@[i])
                } else {
                    arbitrary()
                },
        ),
        component: view_opt(n.component),
    }
}

impl View for Node {
    type V = NodeView;

    open spec fn view(&self) -> NodeView {
        node_view(*self)
    }
}

impl View for TextureRef {
    type V = TextureRefView;

    open spec fn view(&self) -> TextureRefView {
        TextureRefView { uri: self.uri@ }
    }
}

impl View for MaterialPbr {
    type V = MaterialPbrView;

    open spec fn view(&self) -> MaterialPbrView {
        MaterialPbrView {
            id: self.id@,
            name: self.name@,
            base_color: self.base_color,
            base_color_tex: view_opt(self.base_color_tex),
            metallic: self.metallic,
            roughness: self.roughness,
            mr_tex: view_opt(self.mr_tex),
            emissive: self.emissive,
            emissive_tex: view_opt(self.emissive_tex),
        }
    }
}

impl View for Scene {
    type V = SceneView;

    open spec fn view(&self) -> SceneView {
        SceneView {
            id: self.id@,
            name: self.name@,
            materials: views(self.materials@),
            meshes: views(self.meshes@),
            roots: views(self.roots@),
        }
    }
}

impl View for MediaClip {
    type V = MediaClipView;

    open spec fn view(&self) -> MediaClipView {
        MediaClipView {
            id: self.id@,
            name: self.name@,
            uri: self.uri@,
            duration: self.duration as int,
        }
    }
}

impl View for TrackMedia {
    type V = TrackMediaView;

    open spec fn view(&self) -> TrackMediaView {
        TrackMediaView {
            target_node_id: self.target_node_id@,
            clip_id: self.clip_id@,
            in_time: self.in_time as int,
            out_time: self.out_time as int,
            start_at: self.start_at as int,
        }
    }
}

impl View for TimelineTrack {
    type V = TimelineTrackView;

    open spec fn view(&self) -> TimelineTrackView {
        TimelineTrackView { media: view_opt(self.media) }
    }
}

impl View for EventParam {
    type V = EventParamView;

    open spec fn view(&self) -> EventParamView {
        EventParamView { key: self.key@, value: self.value@ }
    }
}

impl View for TimelineEvent {
    type V = TimelineEventView;

    open spec fn view(&self) -> TimelineEventView {
        TimelineEventView { t: self.t as int, action: self.action@, params: views(self.params@) }
    }
}

impl View for Timeline {
    type V = TimelineView;

    open spec fn view(&self) -> TimelineView {
        TimelineView {
            id: self.id@,
            name: self.name@,
            tracks: views(self.tracks@),
            events: views(self.events@),
            duration: self.duration as int,
        }
    }
}

impl View for Project {
    type V = ProjectView;

    open spec fn view(&self) -> ProjectView {
        ProjectView {
            id: self.id@,
            name: self.name@,
            scene: view_opt(self.scene),
            media: views(self.media@),
            timeline: view_opt(self.timeline),
        }
    }
}

/// A node's children are viewed one by one.
pub proof fn lemma_node_children(n: Node)
    ensures
        n@.children == views(n.children@),
{
    assert(n@.children =~= views(n.children@));
}

} // verus!
