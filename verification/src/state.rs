//! The state hub: transport, metrics, the installed project and its instance
//! list, together with the snapshot that is published after every change.
use vstd::prelude::*;
use crate::project::{Project, ProjectView, views, view_opt};
use crate::scene::{
    InstanceData, InstanceView, copy_instances, instances_from_project, project_instances,
};
use crate::timeline::{active_clip, pair_view};
use crate::transport::{Status, Transport, TransportView, opt_int};

verus! {

/// What a subscriber is told about the transport.
#[derive(Clone, Copy, Debug, PartialEq, Eq)]
pub struct TransportState {
    pub status: Status,
    /// Timeline time in nanoseconds.
    pub time: i64,
    pub rate: i64,
}

/// Frame metrics. `fps_milli` counts frames per thousand seconds.
#[derive(Clone, Copy, Debug, PartialEq, Eq)]
pub struct Metrics {
    pub fps_milli: u64,
    pub dropped_frames: u64,
}

/// A snapshot of transport and metrics, as published to subscribers.
#[derive(Clone, Copy, Debug, PartialEq, Eq)]
pub struct StateUpdate {
    pub transport: TransportState,
    pub metrics: Metrics,
}

/// The mathematical state of the hub.
pub struct AppStateView {
    pub transport: TransportView,
    pub metrics: Metrics,
    pub instances: Seq<InstanceView>,
    pub project: Option<ProjectView>,
}

/// The instances that belong to an optional project: none without one.
pub open spec fn instances_of(project: Option<ProjectView>) -> Seq<InstanceView> {
    match project {
        Some(p) => project_instances(p),
        None => Seq::empty(),
    }
}

impl AppStateView {
    /// The hub before anything was asked of it.
    pub open spec fn initial() -> AppStateView {
        AppStateView {
            transport: TransportView::initial(),
            metrics: Metrics { fps_milli: 0, dropped_frames: 0 },
            instances: Seq::empty(),
            project: None,
        }
    }

    /// The clock is well formed, and the instance list is that of the
    /// installed project.
    pub open spec fn well_formed(self) -> bool {
        &&& self.transport.well_formed()
        &&& self.instances == instances_of(self.project)
    }

    /// The snapshot of this state at the wall-clock instant `now`.
    pub open spec fn snapshot(self, now: int) -> StateUpdate {
        StateUpdate {
            transport: TransportState {
                status: self.transport.status,
                time: self.transport.time_at(now) as i64,
                rate: self.transport.rate as i64,
            },
            metrics: self.metrics,
        }
    }

    /// This state with another clock.
    pub open spec fn with_transport(self, transport: TransportView) -> AppStateView {
        AppStateView { transport, ..self }
    }
}

/// The state hub.
pub struct AppState {
    transport: Transport,
    metrics: Metrics,
    instances: Vec<InstanceData>,
    project: Option<Project>,
}

impl View for AppState {
    type V = AppStateView;

    closed spec fn view(&self) -> AppStateView {
        AppStateView {
            transport: self.transport@,
            metrics: self.metrics,
            instances: views(self.instances@),
            project: view_opt(self.project),
        }
    }
}

impl AppState {
    #[verifier::type_invariant]
    spec fn instances_match_project(self) -> bool {
        &&& views(self.instances@) == instances_of(view_opt(self.project))
        &&& self.transport@.well_formed()
    }

    /// A hub with a stopped clock, no metrics and no project, and the snapshot
    /// of that state, which is the same at every instant.
    pub fn new() -> (r: (AppState, StateUpdate))
        ensures
            r.0@ == AppStateView::initial(),
            r.0@.well_formed(),
            forall|now: int| r.1 == #[trigger] r.0@.snapshot(now),
    {
        let instances: Vec<InstanceData> = Vec::new();
        assert(views(instances@) =~= Seq::empty());
        let state = AppState {
            transport: Transport::new(),
            metrics: Metrics { fps_milli: 0, dropped_frames: 0 },
            instances,
            project: None,
        };
        let update = state.snapshot(0);
        (state, update)
    }

    /// The snapshot of the hub at the wall-clock instant `now`.
    pub fn snapshot(&self, now: u64) -> (update: StateUpdate)
        ensures
            update == self@.snapshot(now as int),
            self@.well_formed(),
    {
        proof {
            use_type_invariant(self);
        }
        StateUpdate {
            transport: TransportState {
                status: self.transport.status(),
                time: self.transport.now_virtual(now),
                rate: self.transport.rate(),
            },
            metrics: self.metrics,
        }
    }

    /// Records the frame rate, in frames per thousand seconds.
    pub fn set_metrics_fps(&mut self, now: u64, fps_milli: u64) -> (update: StateUpdate)
        ensures
            final(self)@ == (AppStateView {
                metrics: Metrics { fps_milli, dropped_frames: old(self)@.metrics.dropped_frames },
                ..old(self)@
            }),
            final(self)@.well_formed(),
            update == final(self)@.snapshot(now as int),
    {
        proof {
            use_type_invariant(&*self);
        }
        self.metrics.fps_milli = fps_milli;
        self.snapshot(now)
    }

    /// Starts, or restarts, the clock at `now`, from `at` where it is given.
    pub fn play(&mut self, now: u64, at: Option<i64>) -> (update: StateUpdate)
        ensures
            final(self)@ == old(self)@.with_transport(
                old(self)@.transport.play(now as int, opt_int(at)),
            ),
            final(self)@.well_formed(),
            update == final(self)@.snapshot(now as int),
    {
        proof {
            use_type_invariant(&*self);
        }
        let mut transport = self.transport;
        transport.play(now, at);
        self.transport = transport;
        self.snapshot(now)
    }

    /// Halts the clock at the time it shows at `now`.
    pub fn pause(&mut self, now: u64) -> (update: StateUpdate)
        ensures
            final(self)@ == old(self)@.with_transport(old(self)@.transport.pause(now as int)),
            final(self)@.well_formed(),
            update == final(self)@.snapshot(now as int),
    {
        proof {
            use_type_invariant(&*self);
        }
        let mut transport = self.transport;
        transport.pause(now);
        self.transport = transport;
        self.snapshot(now)
    }

    /// Halts the clock and returns it to time zero.
    pub fn stop(&mut self) -> (update: StateUpdate)
        ensures
            final(self)@ == old(self)@.with_transport(old(self)@.transport.stop()),
            final(self)@.well_formed(),
            forall|now: int| update == #[trigger] final(self)@.snapshot(now),
    {
        proof {
            use_type_invariant(&*self);
        }
        let mut transport = self.transport;
        transport.stop();
        self.transport = transport;
        self.snapshot(0)
    }

    /// Moves the clock to `to`; a playing clock goes on playing from there.
    pub fn seek(&mut self, now: u64, to: i64) -> (update: StateUpdate)
        ensures
            final(self)@ == old(self)@.with_transport(
                old(self)@.transport.seek(now as int, to as int),
            ),
            final(self)@.well_formed(),
            update == final(self)@.snapshot(now as int),
    {
        proof {
            use_type_invariant(&*self);
        }
        let mut transport = self.transport;
        transport.seek(now, to);
        self.transport = transport;
        self.snapshot(now)
    }

    /// Changes the rate, keeping what a playing clock has gained up to `now`.
    pub fn set_rate(&mut self, now: u64, rate: i64) -> (update: StateUpdate)
        ensures
            final(self)@ == old(self)@.with_transport(
                old(self)@.transport.set_rate(now as int, rate as int),
            ),
            final(self)@.well_formed(),
            update == final(self)@.snapshot(now as int),
    {
        proof {
            use_type_invariant(&*self);
        }
        let mut transport = self.transport;
        transport.set_rate(now, rate);
        self.transport = transport;
        self.snapshot(now)
    }

    /// Installs a project in place of the one before, together with its
    /// instance list. Clock and metrics stay as they are.
    pub fn set_project(&mut self, now: u64, project: Project) -> (update: StateUpdate)
        ensures
            final(self)@ == (AppStateView {
                instances: project_instances(project@),
                project: Some(project@),
                ..old(self)@
            }),
            final(self)@.well_formed(),
            update == final(self)@.snapshot(now as int),
    {
        proof {
            use_type_invariant(&*self);
        }
        let instances = instances_from_project(&project);
        *self = AppState {
            transport: self.transport,
            metrics: self.metrics,
            instances,
            project: Some(project),
        };
        self.snapshot(now)
    }

    /// A copy of the instance list of the installed project.
    pub fn instances(&self) -> (list: Vec<InstanceData>)
        ensures
            views(list@) == self@.instances,
            self@.well_formed(),
    {
        proof {
            use_type_invariant(self);
        }
        copy_instances(&self.instances)
    }

    /// Timeline time at the wall-clock instant `now`.
    pub fn current_time(&self, now: u64) -> (t: i64)
        ensures
            t == self@.transport.time_at(now as int),
    {
        self.transport.now_virtual(now)
    }

    /// Id and uri of the clip that the node `node_id` shows at timeline time
    /// `t`; none while no project is installed.
    pub fn active_clip_for_node(&self, node_id: &str, t: i64) -> (r: Option<(String, String)>)
        ensures
            pair_view(r) == match self@.project {
                Some(p) => active_clip(p, node_id@, t as int),
                None => None,
            },
    {
        match &self.project {
            Some(p) => crate::timeline::active_clip_for_node(p, node_id, t),
            None => None,
        }
    }

    /// The installed project.
    pub fn project(&self) -> (p: Option<&Project>)
        ensures
            match p {
                Some(p) => self@.project == Some(p@),
                None => self@.project.is_none(),
            },
    {
        self.project.as_ref()
    }
}

} // verus!
