use constellation_display::media::MediaSource;
use constellation_display::project::{
    Component, MediaClip, Node, Project, Scene, ScreenComponent, Timeline, TimelineTrack,
    TrackMedia,
};
use constellation_display::render::{
    next_power_of_two, BufferPlan, Draw, Renderer, TexCache, TextureRequest, FPS_WINDOW,
    INITIAL_INSTANCE_BYTES, INSTANCE_STRIDE, MAX_INSTANCES, MAX_ROUNDED, QUAD_VERTICES,
};
use constellation_display::state::AppState;
use constellation_display::transport::Status;
use std::path::PathBuf;

const SECOND: u64 = 1_000_000;
const NS: i64 = 1_000_000_000;

fn screen(id: &str) -> Node {
    Node {
        id: id.to_string(),
        name: String::new(),
        transform: None,
        children: Vec::new(),
        component: Some(Component::Screen(ScreenComponent { pixels_x: 8, pixels_y: 8 })),
    }
}

fn track(node: &str, clip_id: &str, from: i64, to: i64) -> TimelineTrack {
    TimelineTrack {
        media: Some(TrackMedia {
            target_node_id: node.to_string(),
            clip_id: clip_id.to_string(),
            in_time: 0,
            out_time: to - from,
            start_at: from,
        }),
    }
}

fn project(screens: usize) -> Project {
    Project {
        id: "p".to_string(),
        name: String::new(),
        scene: Some(Scene {
            id: "s".to_string(),
            name: String::new(),
            materials: Vec::new(),
            meshes: Vec::new(),
            roots: (0..screens).map(|i| screen(&format!("n{i}"))).collect(),
        }),
        media: vec![
            MediaClip { id: "a".to_string(), name: String::new(), uri: "a.png".to_string(), duration: NS },
            MediaClip { id: "b".to_string(), name: String::new(), uri: "file:///b.png".to_string(), duration: NS },
        ],
        timeline: Some(Timeline {
            id: "t".to_string(),
            name: String::new(),
            tracks: vec![track("n0", "a", 0, 10 * NS), track("n2", "b", 5 * NS, 10 * NS)],
            events: Vec::new(),
            duration: 10 * NS,
        }),
    }
}

#[test]
fn constants_of_the_frame_loop() {
    assert_eq!(INSTANCE_STRIDE, 64);
    assert_eq!(INITIAL_INSTANCE_BYTES, 64 * 1024);
    assert_eq!(QUAD_VERTICES, 6);
    assert_eq!(FPS_WINDOW, SECOND);
    assert_eq!(MAX_INSTANCES as u64, u32::MAX as u64);
    assert_eq!(MAX_ROUNDED, 1u64 << 63);
}

#[test]
fn next_power_of_two_rounds_up() {
    assert_eq!(next_power_of_two(0), 1);
    assert_eq!(next_power_of_two(1), 1);
    assert_eq!(next_power_of_two(2), 2);
    assert_eq!(next_power_of_two(3), 4);
    assert_eq!(next_power_of_two(64), 64);
    assert_eq!(next_power_of_two(65), 128);
    assert_eq!(next_power_of_two(65_537), 131_072);
    assert_eq!(next_power_of_two((1 << 63) - 1), 1 << 63);
    assert_eq!(next_power_of_two(1 << 63), 1 << 63);
    for n in [5u64, 100, 1000, 4097, 1 << 40] {
        assert_eq!(next_power_of_two(n), n.next_power_of_two());
    }
}

#[test]
fn surface_is_never_smaller_than_one_pixel() {
    let mut r = Renderer::new(1280, 720, 0);
    assert_eq!(r.surface_size(), (1280, 720));
    r.resize(0, 0);
    assert_eq!(r.surface_size(), (1, 1));
    r.resize(800, 0);
    assert_eq!(r.surface_size(), (800, 1));
    r.resize(0, 600);
    assert_eq!(r.surface_size(), (1, 600));
    assert_eq!(Renderer::new(0, 0, 0).surface_size(), (1, 1));
}

#[test]
fn instance_buffer_grows_to_a_power_of_two_and_never_shrinks() {
    let mut r = Renderer::new(4, 4, 0);
    assert_eq!(r.fit_instances(0), BufferPlan { bytes: 0, capacity: 65_536, reallocate: false });
    assert_eq!(r.fit_instances(1024), BufferPlan { bytes: 65_536, capacity: 65_536, reallocate: false });
    assert_eq!(r.fit_instances(1025), BufferPlan { bytes: 65_600, capacity: 131_072, reallocate: true });
    assert_eq!(r.fit_instances(3), BufferPlan { bytes: 192, capacity: 131_072, reallocate: false });
    assert_eq!(r.fit_instances(5000), BufferPlan { bytes: 320_000, capacity: 524_288, reallocate: true });
}

#[test]
fn instance_count_is_capped() {
    let mut r = Renderer::new(4, 4, 0);
    let plan = r.fit_instances(usize::MAX);
    assert_eq!(plan.bytes, (MAX_INSTANCES as u64) * 64);
    assert_eq!(plan.capacity, 1 << 38);
    assert!(plan.reallocate);
}

#[test]
fn each_instance_is_drawn_with_its_active_clip() {
    let (mut state, _) = AppState::new();
    state.set_project(0, project(3));
    state.play(0, Some(6 * NS));
    let draws = Renderer::draws(&state, SECOND);
    assert_eq!(
        draws,
        vec![
            Draw { instance: 0, clip: Some(("a".to_string(), "a.png".to_string())) },
            Draw { instance: 1, clip: None },
            Draw { instance: 2, clip: Some(("b".to_string(), "file:///b.png".to_string())) },
        ]
    );
    let early = Renderer::draws(&state, 0);
    assert_eq!(early[2], Draw { instance: 2, clip: Some(("b".to_string(), "file:///b.png".to_string())) });
    state.seek(0, 2 * NS);
    let before = Renderer::draws(&state, 0);
    assert_eq!(before[0].clip, Some(("a".to_string(), "a.png".to_string())));
    assert_eq!(before[2].clip, None);
}

#[test]
fn frame_plan_fits_the_buffer_to_the_draws() {
    let (mut state, _) = AppState::new();
    state.set_project(0, project(1025));
    let mut r = Renderer::new(4, 4, 0);
    let plan = r.plan_frame(&state, 0);
    assert_eq!(plan.draws.len(), 1025);
    assert_eq!(plan.draws[1024].instance, 1024);
    assert_eq!(plan.buffer, BufferPlan { bytes: 65_600, capacity: 131_072, reallocate: true });
    let again = r.plan_frame(&state, 0);
    assert_eq!(again.buffer, BufferPlan { bytes: 65_600, capacity: 131_072, reallocate: false });
    let (empty, _) = AppState::new();
    assert_eq!(r.plan_frame(&empty, 0).draws, Vec::new());
}

#[test]
fn texture_cache_gives_each_clip_one_slot() {
    let mut cache = TexCache::new();
    assert_eq!(cache.len(), 0);
    assert_eq!(cache.lookup("a"), None);
    assert_eq!(cache.store("a"), 0);
    assert_eq!(cache.store("b"), 1);
    assert_eq!(cache.store("a"), 0);
    assert_eq!(cache.len(), 2);
    assert_eq!(cache.lookup("a"), Some(0));
    assert_eq!(cache.lookup("b"), Some(1));
    assert_eq!(cache.lookup("c"), None);
}

#[test]
fn cached_texture_is_used_whatever_the_uri() {
    let mut r = Renderer::new(4, 4, 0);
    assert_eq!(
        r.texture_for("k", "first.png"),
        TextureRequest::Load(MediaSource::Path("first.png".to_string()))
    );
    let slot = r.texture_loaded("k");
    assert_eq!(slot, 0);
    assert_eq!(r.texture_for("k", "first.png"), TextureRequest::Cached(0));
    assert_eq!(r.texture_for("k", "second.png"), TextureRequest::Cached(0));
    assert_eq!(r.texture_for("k", "http://example.org/x.png"), TextureRequest::Cached(0));
    assert_eq!(r.texture_loaded("other"), 1);
    assert_eq!(r.texture_loaded("k"), 0);
    assert_eq!(r.texture_for("k", "third.png"), TextureRequest::Cached(0));
}

#[test]
fn uncached_texture_is_loaded_from_where_the_uri_says() {
    let cache = TexCache::new();
    assert_eq!(
        cache.request("k", "file:///tmp/k.png"),
        TextureRequest::Load(MediaSource::FileUrl(PathBuf::from("/tmp/k.png")))
    );
    assert_eq!(cache.request("k", "http://example.org/k.png"), TextureRequest::Unsupported);
    assert_eq!(cache.request("k", "file://remote.example/k.png"), TextureRequest::Unsupported);
}

#[test]
fn failed_load_is_asked_for_again() {
    let r = Renderer::new(4, 4, 0);
    let first = r.texture_for("k", "missing.png");
    let second = r.texture_for("k", "missing.png");
    assert_eq!(first, TextureRequest::Load(MediaSource::Path("missing.png".to_string())));
    assert_eq!(second, first);
}

#[test]
fn frame_rate_is_recorded_once_a_second() {
    let (mut state, _) = AppState::new();
    let mut r = Renderer::new(4, 4, 0);
    for i in 1..60u64 {
        assert_eq!(r.frame_presented(&mut state, i * 16_666), None);
    }
    assert_eq!(state.snapshot(0).metrics.fps_milli, 0);
    let update = r.frame_presented(&mut state, SECOND).unwrap();
    assert_eq!(update.metrics.fps_milli, 60_000);
    assert_eq!(update.metrics.dropped_frames, 0);
    assert_eq!(update.transport.status, Status::Stopped);
    assert_eq!(state.snapshot(SECOND), update);
    assert_eq!(r.frame_presented(&mut state, SECOND + 500_000), None);
    let next = r.frame_presented(&mut state, 2 * SECOND + 500_000).unwrap();
    assert_eq!(next.metrics.fps_milli, 2 * 1_000_000_000 / 1_500_000);
}

#[test]
fn frame_rate_window_survives_a_clock_that_steps_back() {
    let (mut state, _) = AppState::new();
    let mut r = Renderer::new(4, 4, 10 * SECOND);
    assert_eq!(r.frame_presented(&mut state, 9 * SECOND), None);
    let update = r.frame_presented(&mut state, 12 * SECOND).unwrap();
    assert_eq!(update.metrics.fps_milli, 1_000);
}
