use constellation_display::control::{
    activate_timeline, load_project, load_scene, pause, play, seek, set_rate, stop, Ack, Reply,
};
use constellation_display::project::{Component, Node, Project, Scene, ScreenComponent};
use constellation_display::state::{AppState, Metrics, StateUpdate, TransportState};
use constellation_display::transport::{Status, NORMAL_RATE};

const SECOND: u64 = 1_000_000;
const NS: i64 = 1_000_000_000;

fn project(id: &str) -> Project {
    Project {
        id: id.to_string(),
        name: String::new(),
        scene: Some(Scene {
            id: "s".to_string(),
            name: String::new(),
            materials: Vec::new(),
            meshes: Vec::new(),
            roots: vec![Node {
                id: "screen".to_string(),
                name: String::new(),
                transform: None,
                children: Vec::new(),
                component: Some(Component::Screen(ScreenComponent { pixels_x: 4, pixels_y: 3 })),
            }],
        }),
        media: Vec::new(),
        timeline: None,
    }
}

fn accepted(message: &str, status: Status, time: i64, rate: i64) -> Reply {
    Reply {
        ack: Ack { ok: true, message: message.to_string() },
        update: Some(StateUpdate {
            transport: TransportState { status, time, rate },
            metrics: Metrics { fps_milli: 0, dropped_frames: 0 },
        }),
    }
}

#[test]
fn load_project_installs_the_project() {
    let (mut state, _) = AppState::new();
    let reply = load_project(&mut state, 0, Some(project("one")));
    assert_eq!(reply, accepted("project loaded", Status::Stopped, 0, NORMAL_RATE));
    assert_eq!(state.project(), Some(&project("one")));
    assert_eq!(state.instances().len(), 1);
}

#[test]
fn load_project_without_project_is_refused_and_changes_nothing() {
    let (mut state, _) = AppState::new();
    load_project(&mut state, 0, Some(project("kept")));
    state.play(0, Some(NS));
    let before = state.snapshot(SECOND);
    let reply = load_project(&mut state, SECOND, None);
    assert_eq!(
        reply,
        Reply { ack: Ack { ok: false, message: "missing project".to_string() }, update: None }
    );
    assert_eq!(state.project(), Some(&project("kept")));
    assert_eq!(state.instances().len(), 1);
    assert_eq!(state.snapshot(SECOND), before);
}

#[test]
fn scene_and_timeline_requests_are_only_acknowledged() {
    assert_eq!(load_scene(), Ack { ok: true, message: "scene loaded".to_string() });
    assert_eq!(activate_timeline(), Ack { ok: true, message: "timeline activated".to_string() });
}

#[test]
fn play_at_zero_resumes_from_base() {
    let (mut state, _) = AppState::new();
    seek(&mut state, 0, 5 * NS);
    let reply = play(&mut state, SECOND, 0);
    assert_eq!(reply, accepted("play", Status::Playing, 5 * NS, NORMAL_RATE));
    assert_eq!(state.current_time(2 * SECOND), 6 * NS);
}

#[test]
fn play_at_nonzero_sets_base() {
    let (mut state, _) = AppState::new();
    seek(&mut state, 0, 5 * NS);
    let reply = play(&mut state, SECOND, 12 * NS);
    assert_eq!(reply, accepted("play", Status::Playing, 12 * NS, NORMAL_RATE));
    let back = play(&mut state, 2 * SECOND, -3 * NS);
    assert_eq!(back, accepted("play", Status::Playing, -3 * NS, NORMAL_RATE));
}

#[test]
fn transport_requests_are_acknowledged_with_their_snapshot() {
    let (mut state, _) = AppState::new();
    play(&mut state, 0, NS);
    assert_eq!(pause(&mut state, SECOND), accepted("pause", Status::Paused, 2 * NS, NORMAL_RATE));
    assert_eq!(seek(&mut state, SECOND, 9 * NS), accepted("seek", Status::Paused, 9 * NS, NORMAL_RATE));
    assert_eq!(set_rate(&mut state, SECOND, 250), accepted("rate set", Status::Paused, 9 * NS, 250));
    assert_eq!(stop(&mut state), accepted("stop", Status::Stopped, 0, 250));
}

#[test]
fn acknowledgement_as_result_and_exit_code() {
    let yes = Ack { ok: true, message: "play".to_string() };
    let no = Ack { ok: false, message: "missing project".to_string() };
    assert_eq!(yes.exit_code(), 0);
    assert_eq!(no.exit_code(), 1);
    assert_eq!(yes.into_result(), Ok("play".to_string()));
    assert_eq!(no.into_result(), Err("missing project".to_string()));
}
