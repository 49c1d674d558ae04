use constellation_display::project::{
    Component, MediaClip, Node, Project, Scalar, Scene, ScreenComponent, Timeline, TimelineTrack,
    TrackMedia, Transform, Vec3,
};
use constellation_display::scene::instances_from_project;
use constellation_display::state::{AppState, Metrics, StateUpdate, TransportState};
use constellation_display::transport::{Status, NORMAL_RATE};

const SECOND: u64 = 1_000_000;
const NS: i64 = 1_000_000_000;

fn s(x: f32) -> Scalar {
    Scalar { bits: x.to_bits() }
}

fn one_screen_project() -> Project {
    let transform = Transform {
        position: Some(Vec3 { x: s(0.0), y: s(0.0), z: s(0.0) }),
        rotation: None,
        scale: Some(Vec3 { x: s(2.0), y: s(1.0), z: s(1.0) }),
    };
    Project {
        id: "p".to_string(),
        name: "demo".to_string(),
        scene: Some(Scene {
            id: "s".to_string(),
            name: String::new(),
            materials: Vec::new(),
            meshes: Vec::new(),
            roots: vec![Node {
                id: "screen".to_string(),
                name: String::new(),
                transform: Some(transform),
                children: Vec::new(),
                component: Some(Component::Screen(ScreenComponent { pixels_x: 1920, pixels_y: 1080 })),
            }],
        }),
        media: vec![MediaClip {
            id: "clip".to_string(),
            name: String::new(),
            uri: "file:///media/clip.png".to_string(),
            duration: 5 * NS,
        }],
        timeline: Some(Timeline {
            id: "t".to_string(),
            name: String::new(),
            tracks: vec![TimelineTrack {
                media: Some(TrackMedia {
                    target_node_id: "screen".to_string(),
                    clip_id: "clip".to_string(),
                    in_time: 0,
                    out_time: 5 * NS,
                    start_at: 10 * NS,
                }),
            }],
            events: Vec::new(),
            duration: 20 * NS,
        }),
    }
}

fn update(status: Status, time: i64, rate: i64, fps_milli: u64) -> StateUpdate {
    StateUpdate {
        transport: TransportState { status, time, rate },
        metrics: Metrics { fps_milli, dropped_frames: 0 },
    }
}

#[test]
fn new_hub_is_stopped_and_empty() {
    let (state, first) = AppState::new();
    assert_eq!(first, update(Status::Stopped, 0, NORMAL_RATE, 0));
    assert_eq!(state.snapshot(0), first);
    assert_eq!(state.snapshot(99 * SECOND), first);
    assert_eq!(state.instances(), Vec::new());
    assert_eq!(state.project(), None);
    assert_eq!(state.current_time(5 * SECOND), 0);
    assert_eq!(state.active_clip_for_node("screen", 13 * NS), None);
}

#[test]
fn loaded_project_plays_its_clip() {
    let (mut state, _) = AppState::new();
    state.set_project(0, one_screen_project());
    state.play(0, Some(12 * NS));
    let t = state.current_time(SECOND);
    assert_eq!(t, 13 * NS);
    assert_eq!(
        state.active_clip_for_node("screen", t),
        Some(("clip".to_string(), "file:///media/clip.png".to_string()))
    );
    assert_eq!(state.active_clip_for_node("screen", 15 * NS), None);
}

#[test]
fn pause_wait_play_resumes_at_pause_time() {
    let (mut state, _) = AppState::new();
    state.set_project(0, one_screen_project());
    state.play(0, Some(12 * NS));
    let paused = state.pause(SECOND);
    assert_eq!(paused, update(Status::Paused, 13 * NS, NORMAL_RATE, 0));
    let resumed = state.play(3 * SECOND, None);
    assert_eq!(resumed, update(Status::Playing, 13 * NS, NORMAL_RATE, 0));
    assert_eq!(state.current_time(3 * SECOND), 13 * NS);
}

#[test]
fn double_rate_after_one_second() {
    let (mut state, _) = AppState::new();
    state.play(0, Some(0));
    state.set_rate(SECOND, 2 * NORMAL_RATE);
    assert_eq!(state.current_time(2 * SECOND), 3 * NS);
}

#[test]
fn every_change_returns_the_snapshot_of_the_new_state() {
    let (mut state, _) = AppState::new();
    let a = state.play(0, Some(2 * NS));
    assert_eq!(a, update(Status::Playing, 2 * NS, NORMAL_RATE, 0));
    assert_eq!(a, state.snapshot(0));
    let b = state.set_rate(SECOND, 500);
    assert_eq!(b, update(Status::Playing, 3 * NS, 500, 0));
    assert_eq!(b, state.snapshot(SECOND));
    let c = state.seek(2 * SECOND, 10 * NS);
    assert_eq!(c, update(Status::Playing, 10 * NS, 500, 0));
    assert_eq!(c, state.snapshot(2 * SECOND));
    let d = state.set_metrics_fps(4 * SECOND, 59_940);
    assert_eq!(d, update(Status::Playing, 11 * NS, 500, 59_940));
    assert_eq!(d, state.snapshot(4 * SECOND));
    let e = state.pause(6 * SECOND);
    assert_eq!(e, update(Status::Paused, 12 * NS, 500, 59_940));
    assert_eq!(e, state.snapshot(60 * SECOND));
    let f = state.set_project(7 * SECOND, one_screen_project());
    assert_eq!(f, e);
    let g = state.stop();
    assert_eq!(g, update(Status::Stopped, 0, 500, 59_940));
    assert_eq!(g, state.snapshot(8 * SECOND));
}

#[test]
fn instance_list_follows_the_installed_project() {
    let (mut state, _) = AppState::new();
    state.set_project(0, one_screen_project());
    assert_eq!(state.instances(), instances_from_project(&one_screen_project()));
    assert_eq!(state.instances().len(), 1);
    assert_eq!(state.project(), Some(&one_screen_project()));
    let mut empty = one_screen_project();
    empty.scene = None;
    state.set_project(SECOND, empty);
    assert_eq!(state.instances(), Vec::new());
}

#[test]
fn set_project_leaves_the_clock_running() {
    let (mut state, _) = AppState::new();
    state.play(0, Some(NS));
    let seen = state.set_project(2 * SECOND, one_screen_project());
    assert_eq!(seen, update(Status::Playing, 3 * NS, NORMAL_RATE, 0));
    assert_eq!(state.current_time(3 * SECOND), 4 * NS);
}
