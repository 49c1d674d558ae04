//! The decisions of the frame loop: the size of the surface, the size of the
//! instance buffer, which texture each instance is drawn with, which textures
//! are cached, and the frame rate. Talking to the graphics device is left to
//! the caller, who carries out what is decided here.
use vstd::prelude::*;
use vstd::arithmetic::power2::{
    lemma2_to64, lemma2_to64_rest, lemma_pow2_pos, lemma_pow2_strictly_increases,
    lemma_pow2_unfold, pow2,
};
use crate::media::{MediaSource, UriKind, media_source, uri_kind, url_scheme};
use crate::project::views;
use crate::state::{AppState, AppStateView, StateUpdate};
use crate::text::{owned, str_eq};
use crate::timeline::active_clip;

verus! {

/// Bytes that one instance takes in the instance buffer: a 4x4 matrix of
/// 32-bit numbers.
pub const INSTANCE_STRIDE: u64 = 64;

/// Size of the instance buffer before it has ever grown.
pub const INITIAL_INSTANCE_BYTES: u64 = 65_536;

/// The most instances one frame draws: instance indices are 32-bit numbers.
pub const MAX_INSTANCES: usize = 0xffff_ffff;

/// Vertices of the unit quad that every instance is drawn as.
pub const QUAD_VERTICES: u32 = 6;

/// Length of the window over which frames are counted, in microseconds.
pub const FPS_WINDOW: u64 = 1_000_000;

/// The largest size for which a power of two no smaller fits 64 bits.
pub const MAX_ROUNDED: u64 = 0x8000_0000_0000_0000;

/// A surface extent, never below one pixel.
pub open spec fn at_least_one(extent: u32) -> u32 {
    if extent == 0 {
        1u32
    } else {
        extent
    }
}

/// Whether `n` is a power of two.
pub open spec fn power_of_two(n: int) -> bool {
    exists|k: nat| n == pow2(k)
}

/// Whether `r` is the smallest power of two that is no smaller than `n`.
pub open spec fn rounds_up_to(n: int, r: int) -> bool {
    &&& power_of_two(r)
    &&& r >= n
    &&& forall|p: int| power_of_two(p) && p >= n ==> p >= r
}

/// The smallest power of two that is no smaller than `n`.
pub fn next_power_of_two(n: u64) -> (r: u64)
    requires
        n <= MAX_ROUNDED,
    ensures
        rounds_up_to(n as int, r as int),
{
    let mut r: u64 = 1;
    let ghost mut k: nat = 0;
    proof {
        lemma2_to64();
        lemma2_to64_rest();
    }
    while r < n
        invariant
            r == pow2(k),
            k <= 63,
            n <= MAX_ROUNDED,
            pow2(63) == 0x8000_0000_0000_0000,
            k > 0 ==> pow2((k - 1) as nat) < n,
        decreases 64 - k,
    {
        proof {
            if k >= 63 {
                lemma_pow2_strictly_increases(63, k);
            }
            lemma_pow2_unfold(k + 1);
            if k + 1 < 63 {
                lemma_pow2_strictly_increases(k + 1, 63);
            }
        }
        r = r * 2;
        proof {
            k = k + 1;
        }
    }
    proof {
        assert forall|p: int| power_of_two(p) && p >= n implies p >= r by {
            let j = choose|j: nat| p == pow2(j);
            lemma_pow2_pos(j);
            if j < k {
                if j < k - 1 {
                    lemma_pow2_strictly_increases(j, (k - 1) as nat);
                }
            } else if j > k {
                lemma_pow2_strictly_increases(k, j);
            }
        }
    }
    r
}

// ------------------------------------------------------------ texture cache

/// Slot `s` is the first of `keys` that holds `id`.
pub open spec fn is_slot_of(keys: Seq<Seq<char>>, id: Seq<char>, s: int) -> bool {
    &&& 0 <= s < keys.len()
    &&& keys[s] == id
    &&& forall|k: int| 0 <= k < s ==> #[trigger] keys[k] != id
}

/// The slot that holds the texture of clip `id`, if the clip is cached.
pub open spec fn slot_of(keys: Seq<Seq<char>>, id: Seq<char>) -> Option<int> {
    if exists|s: int| is_slot_of(keys, id, s) {
        Some(choose|s: int| is_slot_of(keys, id, s))
    } else {
        None
    }
}

/// The cache after the texture of clip `id` was stored: unchanged where the
/// clip is cached already, with one more slot otherwise.
pub open spec fn stored(keys: Seq<Seq<char>>, id: Seq<char>) -> Seq<Seq<char>> {
    if slot_of(keys, id).is_some() {
        keys
    } else {
        keys.push(id)
    }
}

/// The first slot that holds `id` is the slot of `id`.
pub proof fn lemma_slot_is(keys: Seq<Seq<char>>, id: Seq<char>, s: int)
    requires
        is_slot_of(keys, id, s),
    ensures
        slot_of(keys, id) == Some(s),
{
    let c = choose|c: int| is_slot_of(keys, id, c);
    if c < s {
        assert(keys[c] != id);
    }
    if s < c {
        assert(keys[s] != id);
    }
}

/// A clip that no slot holds has no slot.
pub proof fn lemma_no_slot(keys: Seq<Seq<char>>, id: Seq<char>)
    requires
        forall|k: int| 0 <= k < keys.len() ==> #[trigger] keys[k] != id,
    ensures
        slot_of(keys, id).is_none(),
{
    assert forall|s: int| !is_slot_of(keys, id, s) by {
        if is_slot_of(keys, id, s) {
            assert(keys[s] != id);
        }
    }
}

/// The textures that have been loaded, by clip id. A slot, once given to a
/// clip, stays with it: nothing is ever removed or replaced.
pub struct TexCache {
    keys: Vec<String>,
}

impl View for TexCache {
    type V = Seq<Seq<char>>;

    closed spec fn view(&self) -> Seq<Seq<char>> {
        Seq::new(self.keys@.len(), |i: int| self.keys@[i]@)
    }
}

/// What to draw a clip with.
#[derive(Debug, PartialEq, Eq)]
pub enum TextureRequest {
    /// The texture in this slot of the cache.
    Cached(usize),
    /// The texture that is yet to be loaded from this source; the fallback
    /// texture if loading fails.
    Load(MediaSource),
    /// The fallback texture: the uri names nothing that can be loaded.
    Unsupported,
}

impl TexCache {
    /// An empty cache.
    pub fn new() -> (cache: TexCache)
        ensures
            cache@ == Seq::<Seq<char>>::empty(),
    {
        let cache = TexCache { keys: Vec::new() };
        assert(cache@ =~= Seq::empty());
        cache
    }

    /// The number of cached textures.
    pub fn len(&self) -> (n: usize)
        ensures
            n == self@.len(),
    {
        self.keys.len()
    }

    /// The slot that holds the texture of a clip, if the clip is cached.
    pub fn lookup(&self, clip_id: &str) -> (r: Option<usize>)
        ensures
            match r {
                Some(s) => slot_of(self@, clip_id@) == Some(s as int),
                None => slot_of(self@, clip_id@).is_none(),
            },
    {
        let mut i: usize = 0;
        while i < self.keys.len()
            invariant
                i <= self.keys.len(),
                forall|k: int| 0 <= k < i ==> #[trigger] self@[k] != clip_id@,
            decreases self.keys.len() - i,
        {
            if str_eq(self.keys[i].as_str(), clip_id) {
                proof {
                    lemma_slot_is(self@, clip_id@, i as int);
                }
                return Some(i);
            }
            i = i + 1;
        }
        proof {
            lemma_no_slot(self@, clip_id@);
        }
        None
    }

    /// What to draw the clip `clip_id` with. A cached clip is drawn with its
    /// cached texture whatever `uri` says; for any other clip `uri` decides
    /// where its texture is to be loaded from.
    pub fn request(&self, clip_id: &str, uri: &str) -> (r: TextureRequest)
        ensures
            match slot_of(self@, clip_id@) {
                Some(s) => r == TextureRequest::Cached(s as usize),
                None => match uri_kind(url_scheme(uri@)) {
                    UriKind::BarePath => r matches TextureRequest::Load(MediaSource::Path(p)) && p@
                        == uri@,
                    UriKind::FileUrl => r matches TextureRequest::Load(MediaSource::FileUrl(_))
                        || r == TextureRequest::Unsupported,
                    UriKind::Unsupported => r == TextureRequest::Unsupported,
                },
            },
    {
        match self.lookup(clip_id) {
            Some(s) => TextureRequest::Cached(s),
            None => match media_source(uri) {
                Some(source) => TextureRequest::Load(source),
                None => TextureRequest::Unsupported,
            },
        }
    }

    /// Records that the texture of `clip_id` has been loaded and returns its
    /// slot. A clip that is cached already keeps the slot it has.
    pub fn store(&mut self, clip_id: &str) -> (slot: usize)
        ensures
            final(self)@ == stored(old(self)@, clip_id@),
            slot_of(final(self)@, clip_id@) == Some(slot as int),
    {
        match self.lookup(clip_id) {
            Some(s) => s,
            None => {
                let slot = self.keys.len();
                let ghost before = self@;
                self.keys.push(owned(clip_id));
                assert(self@ =~= before.push(clip_id@));
                proof {
                    assert forall|k: int| 0 <= k < slot implies #[trigger] self@[k] != clip_id@ by {
                        assert(before[k] != clip_id@) by {
                            if before[k] == clip_id@ {
                                lemma_first_slot_exists(before, clip_id@, k);
                            }
                        }
                    }
                    lemma_slot_is(self@, clip_id@, slot as int);
                }
                slot
            },
        }
    }
}

/// A clip that some slot holds has a slot.
pub proof fn lemma_first_slot_exists(keys: Seq<Seq<char>>, id: Seq<char>, k: int)
    requires
        0 <= k < keys.len(),
        keys[k] == id,
    ensures
        slot_of(keys, id) matches Some(s) && s <= k,
    decreases k,
{
    if exists|j: int| 0 <= j < k && keys[j] == id {
        let j = choose|j: int| 0 <= j < k && keys[j] == id;
        lemma_first_slot_exists(keys, id, j);
    } else {
        lemma_slot_is(keys, id, k);
    }
}

/// A cached clip keeps its slot whatever is stored afterwards.
pub proof fn lemma_slot_is_kept(keys: Seq<Seq<char>>, id: Seq<char>, other: Seq<char>)
    requires
        slot_of(keys, id).is_some(),
    ensures
        slot_of(stored(keys, other), id) == slot_of(keys, id),
{
    let s = slot_of(keys, id).unwrap();
    assert(is_slot_of(keys, id, s));
    assert(is_slot_of(stored(keys, other), id, s));
    lemma_slot_is(stored(keys, other), id, s);
}

/// Once the texture of a clip is stored, the clip has a slot.
pub proof fn lemma_stored_has_slot(keys: Seq<Seq<char>>, id: Seq<char>)
    ensures
        slot_of(stored(keys, id), id).is_some(),
{
    if slot_of(keys, id).is_none() {
        let after = keys.push(id);
        lemma_first_slot_exists(after, id, keys.len() as int);
    }
}

/// The cache after the textures of several clips were stored, one after the
/// other.
pub open spec fn stored_all(keys: Seq<Seq<char>>, ids: Seq<Seq<char>>) -> Seq<Seq<char>>
    decreases ids.len(),
{
    if ids.len() == 0 {
        keys
    } else {
        stored(stored_all(keys, ids.drop_last()), ids.last())
    }
}

/// First wins: once a clip is cached, it keeps its slot whatever is stored
/// afterwards, the same clip again included.
pub proof fn lemma_first_texture_wins(keys: Seq<Seq<char>>, id: Seq<char>, later: Seq<Seq<char>>)
    ensures
        slot_of(stored(keys, id), id).is_some(),
        slot_of(stored_all(stored(keys, id), later), id) == slot_of(stored(keys, id), id),
    decreases later.len(),
{
    lemma_stored_has_slot(keys, id);
    if later.len() > 0 {
        lemma_first_texture_wins(keys, id, later.drop_last());
        lemma_slot_is_kept(stored_all(stored(keys, id), later.drop_last()), id, later.last());
    }
}

// ------------------------------------------------------------------ frames

/// One draw of the unit quad: the instance to draw and the clip whose
/// texture it is drawn with, by id and uri; the fallback texture without one.
#[derive(Clone, Debug, PartialEq, Eq)]
pub struct Draw {
    pub instance: u32,
    pub clip: Option<(String, String)>,
}

/// The mathematical content of a draw.
pub struct DrawView {
    pub instance: int,
    pub clip: Option<(Seq<char>, Seq<char>)>,
}

impl View for Draw {
    type V = DrawView;

    open spec fn view(&self) -> DrawView {
        DrawView { instance: self.instance as int, clip: crate::timeline::pair_view(self.clip) }
    }
}

/// How many of `count` instances a frame draws.
pub open spec fn drawn(count: int) -> int {
    if count <= MAX_INSTANCES {
        count
    } else {
        MAX_INSTANCES as int
    }
}

/// The clip that instance `i` of the hub is drawn with at timeline time `t`.
pub open spec fn clip_of_instance(state: AppStateView, i: int, t: int) -> Option<
    (Seq<char>, Seq<char>),
> {
    match state.project {
        Some(p) => active_clip(p, state.instances[i].node_id, t),
        None => None,
    }
}

/// The draws of one frame at the wall-clock instant `now`: one for each
/// instance, in the order of the instance list, each with the clip that is
/// active for its node at the timeline time of that instant.
pub open spec fn draws_of(state: AppStateView, now: int) -> Seq<DrawView> {
    Seq::new(
        drawn(state.instances.len() as int) as nat,
        |i: int|
            DrawView { instance: i, clip: clip_of_instance(state, i, state.transport.time_at(now)) },
    )
}

/// What to do with the instance buffer before a frame is drawn.
#[derive(Clone, Copy, Debug, PartialEq, Eq)]
pub struct BufferPlan {
    /// Bytes of instance data to write.
    pub bytes: u64,
    /// Size of the buffer to write them to.
    pub capacity: u64,
    /// Whether a buffer of that size has to be created first.
    pub reallocate: bool,
}

/// Everything a frame needs from the hub.
#[derive(Debug)]
pub struct FramePlan {
    pub buffer: BufferPlan,
    pub draws: Vec<Draw>,
}

/// Frames per thousand seconds, for `frames` frames in `elapsed` microseconds.
pub open spec fn fps_milli(frames: int, elapsed: int) -> int {
    frames * 1_000_000_000 / elapsed
}

/// The mathematical state of the renderer.
pub struct RendererView {
    pub width: u32,
    pub height: u32,
    pub capacity: u64,
    pub textures: Seq<Seq<char>>,
    pub frames: u32,
    pub window_start: u64,
}

impl RendererView {
    /// The surface is at least one pixel wide and high.
    pub open spec fn well_formed(self) -> bool {
        self.width >= 1 && self.height >= 1
    }

    /// The frames counted after one more frame.
    pub open spec fn counted(self) -> u32 {
        if self.frames < u32::MAX {
            (self.frames + 1) as u32
        } else {
            self.frames
        }
    }

    /// Wall-clock time since the counting window began, never negative.
    pub open spec fn window_elapsed(self, now: u64) -> int {
        if now >= self.window_start {
            now - self.window_start
        } else {
            0
        }
    }

    /// Whether the counting window ends with a frame presented at `now`.
    pub open spec fn window_ends(self, now: u64) -> bool {
        self.window_elapsed(now) >= FPS_WINDOW
    }
}

/// The state that the frame loop keeps between frames.
pub struct Renderer {
    width: u32,
    height: u32,
    capacity: u64,
    textures: TexCache,
    frames: u32,
    window_start: u64,
}

impl View for Renderer {
    type V = RendererView;

    closed spec fn view(&self) -> RendererView {
        RendererView {
            width: self.width,
            height: self.height,
            capacity: self.capacity,
            textures: self.textures@,
            frames: self.frames,
            window_start: self.window_start,
        }
    }
}

fn clamp_extent(extent: u32) -> (r: u32)
    ensures
        r == at_least_one(extent),
{
    if extent == 0 {
        1
    } else {
        extent
    }
}

impl Renderer {
    /// A renderer for a surface of the given size, with an empty texture cache
    /// and a counting window that begins at `now`.
    pub fn new(width: u32, height: u32, now: u64) -> (r: Renderer)
        ensures
            r@ == (RendererView {
                width: at_least_one(width),
                height: at_least_one(height),
                capacity: INITIAL_INSTANCE_BYTES,
                textures: Seq::empty(),
                frames: 0,
                window_start: now,
            }),
            r@.well_formed(),
    {
        Renderer {
            width: clamp_extent(width),
            height: clamp_extent(height),
            capacity: INITIAL_INSTANCE_BYTES,
            textures: TexCache::new(),
            frames: 0,
            window_start: now,
        }
    }

    /// Takes the new size of the window.
    pub fn resize(&mut self, width: u32, height: u32)
        ensures
            final(self)@ == (RendererView {
                width: at_least_one(width),
                height: at_least_one(height),
                ..old(self)@
            }),
            final(self)@.well_formed(),
    {
        self.width = clamp_extent(width);
        self.height = clamp_extent(height);
    }

    /// Width and height to configure the surface with.
    pub fn surface_size(&self) -> (size: (u32, u32))
        ensures
            size == (self@.width, self@.height),
    {
        (self.width, self.height)
    }

    /// Fits the instance buffer to `count` instances: it grows, to the next
    /// power of two, when it cannot hold them, and never shrinks.
    pub fn fit_instances(&mut self, count: usize) -> (plan: BufferPlan)
        ensures
            plan.bytes == drawn(count as int) * INSTANCE_STRIDE,
            plan.capacity == final(self)@.capacity,
            plan.reallocate == (plan.bytes > old(self)@.capacity),
            plan.reallocate ==> rounds_up_to(plan.bytes as int, plan.capacity as int),
            !plan.reallocate ==> plan.capacity == old(self)@.capacity,
            final(self)@ == (RendererView { capacity: plan.capacity, ..old(self)@ }),
    {
        let drawn: u64 = if count <= MAX_INSTANCES {
            count as u64
        } else {
            MAX_INSTANCES as u64
        };
        let bytes: u64 = drawn * INSTANCE_STRIDE;
        let reallocate = bytes > self.capacity;
        if reallocate {
            self.capacity = next_power_of_two(bytes);
        }
        BufferPlan { bytes, capacity: self.capacity, reallocate }
    }

    /// The draws of one frame at the wall-clock instant `now`.
    pub fn draws(state: &AppState, now: u64) -> (list: Vec<Draw>)
        ensures
            views(list@) == draws_of(state@, now as int),
    {
        let t = state.current_time(now);
        let instances = state.instances();
        let count: usize = if instances.len() <= MAX_INSTANCES {
            instances.len()
        } else {
            MAX_INSTANCES
        };
        let mut list: Vec<Draw> = Vec::new();
        let mut i: usize = 0;
        while i < count
            invariant
                i <= count <= instances.len(),
                count == drawn(instances.len() as int),
                views(instances@) == state@.instances,
                t == state@.transport.time_at(now as int),
                list@.len() == i,
                forall|k: int| 0 <= k < i ==> (#[trigger] list@[k])@ == draws_of(state@, now as int)[k],
            decreases count - i,
        {
            assert(views(instances@)[i as int] == instances@[i as int]@);
            let clip = state.active_clip_for_node(instances[i].node_id.as_str(), t);
            list.push(Draw { instance: i as u32, clip });
            i = i + 1;
        }
        assert(views(instances@).len() == instances@.len());
        assert(views(list@) =~= draws_of(state@, now as int));
        list
    }

    /// What one frame needs from the hub at the wall-clock instant `now`: the
    /// instance buffer fitted to the instance list, and the draws.
    pub fn plan_frame(&mut self, state: &AppState, now: u64) -> (plan: FramePlan)
        ensures
            views(plan.draws@) == draws_of(state@, now as int),
            plan.buffer.bytes == plan.draws@.len() * INSTANCE_STRIDE,
            plan.buffer.capacity == final(self)@.capacity,
            plan.buffer.reallocate == (plan.buffer.bytes > old(self)@.capacity),
            plan.buffer.reallocate ==> rounds_up_to(
                plan.buffer.bytes as int,
                plan.buffer.capacity as int,
            ),
            !plan.buffer.reallocate ==> plan.buffer.capacity == old(self)@.capacity,
            final(self)@ == (RendererView { capacity: plan.buffer.capacity, ..old(self)@ }),
    {
        let draws = Self::draws(state, now);
        assert(views(draws@).len() == draws@.len());
        let buffer = self.fit_instances(draws.len());
        FramePlan { buffer, draws }
    }

    /// What to draw the clip `clip_id` with: its cached texture, whatever
    /// `uri` says, or else the texture that `uri` leads to.
    pub fn texture_for(&self, clip_id: &str, uri: &str) -> (r: TextureRequest)
        ensures
            match slot_of(self@.textures, clip_id@) {
                Some(s) => r == TextureRequest::Cached(s as usize),
                None => match uri_kind(url_scheme(uri@)) {
                    UriKind::BarePath => r matches TextureRequest::Load(MediaSource::Path(p)) && p@
                        == uri@,
                    UriKind::FileUrl => r matches TextureRequest::Load(MediaSource::FileUrl(_))
                        || r == TextureRequest::Unsupported,
                    UriKind::Unsupported => r == TextureRequest::Unsupported,
                },
            },
    {
        self.textures.request(clip_id, uri)
    }

    /// Records that the texture of `clip_id` has been loaded and returns its
    /// slot. A clip that is cached already keeps the slot it has.
    pub fn texture_loaded(&mut self, clip_id: &str) -> (slot: usize)
        ensures
            final(self)@ == (RendererView {
                textures: stored(old(self)@.textures, clip_id@),
                ..old(self)@
            }),
            slot_of(final(self)@.textures, clip_id@) == Some(slot as int),
    {
        self.textures.store(clip_id)
    }

    /// Counts a presented frame. When the counting window is over, the frame
    /// rate of the window is recorded in the hub, the snapshot to publish is
    /// returned, and a new window begins at `now`.
    pub fn frame_presented(&mut self, state: &mut AppState, now: u64) -> (update: Option<
        StateUpdate,
    >)
        ensures
            old(self)@.window_ends(now) ==> {
                &&& final(self)@ == (RendererView { frames: 0, window_start: now, ..old(self)@ })
                &&& final(state)@ == (AppStateView {
                    metrics: crate::state::Metrics {
                        fps_milli: fps_milli(
                            old(self)@.counted() as int,
                            old(self)@.window_elapsed(now),
                        ) as u64,
                        dropped_frames: old(state)@.metrics.dropped_frames,
                    },
                    ..old(state)@
                })
                &&& update == Some(final(state)@.snapshot(now as int))
            },
            !old(self)@.window_ends(now) ==> {
                &&& final(self)@ == (RendererView { frames: old(self)@.counted(), ..old(self)@ })
                &&& final(state)@ == old(state)@
                &&& update.is_none()
            },
    {
        let frames: u32 = if self.frames < u32::MAX {
            self.frames + 1
        } else {
            self.frames
        };
        let elapsed: u64 = if now >= self.window_start {
            now - self.window_start
        } else {
            0
        };
        if elapsed >= FPS_WINDOW {
            assert(frames * 1_000_000_000 <= 0xffff_ffff * 1_000_000_000) by (nonlinear_arith)
                requires
                    frames <= 0xffff_ffff,
            ;
            let fps: u64 = (frames as u64) * 1_000_000_000 / elapsed;
            let update = state.set_metrics_fps(now, fps);
            self.frames = 0;
            self.window_start = now;
            Some(update)
        } else {
            self.frames = frames;
            None
        }
    }
}

} // verus!
