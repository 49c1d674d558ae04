//! The control surface: what each request does to the state hub, the
//! acknowledgement it is answered with, and the snapshot to publish.
use vstd::prelude::*;
use crate::project::Project;
use crate::scene::project_instances;
use crate::state::{AppState, AppStateView, StateUpdate};
use crate::text::owned;

verus! {

/// The answer to a request. `ok` is false when the request was malformed.
#[derive(Clone, Debug, PartialEq, Eq)]
pub struct Ack {
    pub ok: bool,
    pub message: String,
}

/// An acknowledgement and, where the request changed the hub, the snapshot to
/// publish.
#[derive(Clone, Debug, PartialEq, Eq)]
pub struct Reply {
    pub ack: Ack,
    pub update: Option<StateUpdate>,
}

impl Reply {
    /// The request was carried out, is acknowledged with `message`, and
    /// `update` is the one snapshot to publish.
    pub open spec fn accepted(self, message: Seq<char>, update: StateUpdate) -> bool {
        &&& self.ack.ok
        &&& self.ack.message@ == message
        &&& self.update == Some(update)
    }
}

/// The start position that a play request names: a position of zero stands for
/// none, and the clock then resumes from where it is.
pub open spec fn play_position(at: i64) -> Option<i64> {
    if at == 0 {
        None
    } else {
        Some(at)
    }
}

fn accept(message: &str, update: StateUpdate) -> (reply: Reply)
    ensures
        reply.accepted(message@, update),
{
    Reply { ack: Ack { ok: true, message: owned(message) }, update: Some(update) }
}

/// Installs the project of a request. A request without a project is refused
/// and changes nothing.
pub fn load_project(state: &mut AppState, now: u64, project: Option<Project>) -> (reply: Reply)
    ensures
        match project {
            Some(p) => {
                &&& final(state)@ == (AppStateView {
                    instances: project_instances(p@),
                    project: Some(p@),
                    ..old(state)@
                })
                &&& reply.accepted("project loaded"@, final(state)@.snapshot(now as int))
            },
            None => {
                &&& final(state)@ == old(state)@
                &&& !reply.ack.ok
                &&& reply.ack.message@ == "missing project"@
                &&& reply.update.is_none()
            },
        },
{
    match project {
        Some(p) => {
            let update = state.set_project(now, p);
            accept("project loaded", update)
        },
        None => Reply {
            ack: Ack { ok: false, message: owned("missing project") },
            update: None,
        },
    }
}

/// Acknowledges a scene; the hub takes scenes only as part of a project.
pub fn load_scene() -> (ack: Ack)
    ensures
        ack.ok,
        ack.message@ == "scene loaded"@,
{
    Ack { ok: true, message: owned("scene loaded") }
}

/// Acknowledges the choice of a timeline; a project has one timeline.
pub fn activate_timeline() -> (ack: Ack)
    ensures
        ack.ok,
        ack.message@ == "timeline activated"@,
{
    Ack { ok: true, message: owned("timeline activated") }
}

/// Starts the clock, from `at` unless `at` is zero.
pub fn play(state: &mut AppState, now: u64, at: i64) -> (reply: Reply)
    ensures
        final(state)@ == old(state)@.with_transport(
            old(state)@.transport.play(now as int, crate::transport::opt_int(play_position(at))),
        ),
        reply.accepted("play"@, final(state)@.snapshot(now as int)),
{
    let position = if at == 0 {
        None
    } else {
        Some(at)
    };
    let update = state.play(now, position);
    accept("play", update)
}

/// Halts the clock at the time it shows at `now`.
pub fn pause(state: &mut AppState, now: u64) -> (reply: Reply)
    ensures
        final(state)@ == old(state)@.with_transport(old(state)@.transport.pause(now as int)),
        reply.accepted("pause"@, final(state)@.snapshot(now as int)),
{
    let update = state.pause(now);
    accept("pause", update)
}

/// Halts the clock and returns it to time zero. The snapshot of a stopped
/// clock is the same at every instant.
pub fn stop(state: &mut AppState) -> (reply: Reply)
    ensures
        final(state)@ == old(state)@.with_transport(old(state)@.transport.stop()),
        forall|now: int| reply.accepted("stop"@, #[trigger] final(state)@.snapshot(now)),
{
    let update = state.stop();
    accept("stop", update)
}

/// Moves the clock to `to`.
pub fn seek(state: &mut AppState, now: u64, to: i64) -> (reply: Reply)
    ensures
        final(state)@ == old(state)@.with_transport(
            old(state)@.transport.seek(now as int, to as int),
        ),
        reply.accepted("seek"@, final(state)@.snapshot(now as int)),
{
    let update = state.seek(now, to);
    accept("seek", update)
}

/// Changes the rate of the clock.
pub fn set_rate(state: &mut AppState, now: u64, rate: i64) -> (reply: Reply)
    ensures
        final(state)@ == old(state)@.with_transport(
            old(state)@.transport.set_rate(now as int, rate as int),
        ),
        reply.accepted("rate set"@, final(state)@.snapshot(now as int)),
{
    let update = state.set_rate(now, rate);
    accept("rate set", update)
}

impl Ack {
    /// The message of an acknowledgement, as a success when the request was
    /// carried out and as a failure when it was refused.
    pub fn into_result(self) -> (r: Result<String, String>)
        ensures
            r == if self.ok {
                Ok::<String, String>(self.message)
            } else {
                Err::<String, String>(self.message)
            },
    {
        if self.ok {
            Ok(self.message)
        } else {
            Err(self.message)
        }
    }

    /// The exit code of a command that was answered with this
    /// acknowledgement: zero when the request was carried out.
    pub fn exit_code(&self) -> (code: i32)
        ensures
            code == if self.ok {
                0i32
            } else {
                1i32
            },
    {
        if self.ok {
            0
        } else {
            1
        }
    }
}

} // verus!
