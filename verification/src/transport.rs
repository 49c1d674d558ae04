//! The transport clock: timeline time as a function of wall-clock time under
//! play, pause, stop, seek and rate changes.
//!
//! Timeline time is counted in nanoseconds, wall-clock time in microseconds, and
//! a rate is the number of nanoseconds the timeline gains per microsecond, so
//! that `NORMAL_RATE` is real time. The clock never reads a wall clock itself:
//! every operation that depends on the current instant takes it as `now`.
use vstd::prelude::*;

verus! {

/// Nanoseconds of timeline time per second.
pub const TICKS_PER_SECOND: i64 = 1_000_000_000;

/// Microseconds of wall-clock time per second.
pub const WALL_TICKS_PER_SECOND: u64 = 1_000_000;

/// The rate at which timeline time runs as fast as the wall clock.
pub const NORMAL_RATE: i64 = 1_000;

/// Whether the clock runs.
#[derive(Clone, Copy, Debug, PartialEq, Eq, Structural)]
pub enum Status {
    Stopped,
    Playing,
    Paused,
}

impl Status {
    /// The number that stands for a status on the wire.
    pub open spec fn spec_code(self) -> i32 {
        match self {
            Status::Stopped => 0,
            Status::Playing => 1,
            Status::Paused => 2,
        }
    }

    /// The number that stands for a status on the wire.
    #[verifier::when_used_as_spec(spec_code)]
    pub fn code(self) -> (c: i32)
        ensures
            c == self.spec_code(),
    {
        match self {
            Status::Stopped => 0,
            Status::Playing => 1,
            Status::Paused => 2,
        }
    }
}

/// The nearest value to `x` that a signed 64-bit count can hold.
pub open spec fn saturate(x: int) -> int {
    if x > i64::MAX {
        i64::MAX as int
    } else if x < i64::MIN {
        i64::MIN as int
    } else {
        x
    }
}

/// The mathematical state of a transport clock.
pub struct TransportView {
    pub status: Status,
    pub rate: int,
    pub base_time: int,
    pub started_at: Option<int>,
}

impl TransportView {
    /// A clock is started exactly while it plays, and its numbers fit the
    /// machine types that hold them.
    pub open spec fn well_formed(self) -> bool {
        &&& (self.status == Status::Playing) == self.started_at.is_some()
        &&& i64::MIN <= self.rate <= i64::MAX
        &&& i64::MIN <= self.base_time <= i64::MAX
        &&& self.started_at matches Some(s) ==> 0 <= s <= u64::MAX
    }

    /// The clock before anything was asked of it.
    pub open spec fn initial() -> TransportView {
        TransportView {
            status: Status::Stopped,
            rate: NORMAL_RATE as int,
            base_time: 0,
            started_at: None,
        }
    }

    /// Wall-clock time since the clock was last started, never negative.
    pub open spec fn elapsed(self, now: int) -> int {
        match self.started_at {
            Some(s) => if now >= s {
                now - s
            } else {
                0
            },
            None => 0,
        }
    }

    /// Timeline time with the running stretch folded in.
    pub open spec fn folded(self, now: int) -> int {
        saturate(self.base_time + self.rate * self.elapsed(now))
    }

    /// Timeline time at the wall-clock instant `now`.
    pub open spec fn time_at(self, now: int) -> int {
        if self.status == Status::Playing {
            self.folded(now)
        } else {
            self.base_time
        }
    }

    /// The clock after it was started at `now`, from `at` where that is
    /// given. A clock that plays already starts anew from its base: what it
    /// had gained is not counted.
    pub open spec fn play(self, now: int, at: Option<int>) -> TransportView {
        TransportView {
            status: Status::Playing,
            rate: self.rate,
            base_time: match at {
                Some(t) => t,
                None => self.base_time,
            },
            started_at: Some(now),
        }
    }

    /// The clock after it was paused at `now`: what it had gained is folded
    /// into its base.
    pub open spec fn pause(self, now: int) -> TransportView {
        TransportView {
            status: Status::Paused,
            rate: self.rate,
            base_time: if self.started_at.is_some() {
                self.folded(now)
            } else {
                self.base_time
            },
            started_at: None,
        }
    }

    /// The clock after it was stopped: at rest, at time zero.
    pub open spec fn stop(self) -> TransportView {
        TransportView { status: Status::Stopped, rate: self.rate, base_time: 0, started_at: None }
    }

    /// The clock after it was sent to `to` at `now`; a playing clock plays on
    /// from there.
    pub open spec fn seek(self, now: int, to: int) -> TransportView {
        TransportView {
            status: self.status,
            rate: self.rate,
            base_time: to,
            started_at: if self.status == Status::Playing {
                Some(now)
            } else {
                None
            },
        }
    }

    /// The clock after its rate was changed at `now`: what a playing clock
    /// had gained at the old rate is folded into its base first.
    pub open spec fn set_rate(self, now: int, rate: int) -> TransportView {
        if self.status == Status::Playing {
            TransportView {
                status: Status::Playing,
                rate,
                base_time: self.folded(now),
                started_at: Some(now),
            }
        } else {
            TransportView {
                status: self.status,
                rate,
                base_time: self.base_time,
                started_at: None,
            }
        }
    }
}

/// An optional signed count as an optional integer.
pub open spec fn opt_int(o: Option<i64>) -> Option<int> {
    match o {
        Some(x) => Some(x as int),
        None => None,
    }
}

/// The transport clock.
#[derive(Clone, Copy, Debug)]
pub struct Transport {
    status: Status,
    rate: i64,
    base_time: i64,
    started_at: Option<u64>,
}

impl View for Transport {
    type V = TransportView;

    closed spec fn view(&self) -> TransportView {
        TransportView {
            status: self.status,
            rate: self.rate as int,
            base_time: self.base_time as int,
            started_at: match self.started_at {
                Some(s) => Some(s as int),
                None => None,
            },
        }
    }
}

/// `base + rate * elapsed`, held to the range of a signed 64-bit count.
fn advance(base: i64, rate: i64, elapsed: u64) -> (r: i64)
    ensures
        r == saturate(base + rate * elapsed),
{
    assert(-0x8000_0000_0000_0000 * 0xffff_ffff_ffff_ffff <= rate * elapsed
        <= 0x7fff_ffff_ffff_ffff * 0xffff_ffff_ffff_ffff) by (nonlinear_arith)
        requires
            -0x8000_0000_0000_0000 <= rate <= 0x7fff_ffff_ffff_ffff,
            0 <= elapsed <= 0xffff_ffff_ffff_ffff,
    ;
    let gained: i128 = (rate as i128) * (elapsed as i128);
    let sum: i128 = base as i128 + gained;
    if sum > i64::MAX as i128 {
        i64::MAX
    } else if sum < i64::MIN as i128 {
        i64::MIN
    } else {
        sum as i64
    }
}

impl Transport {
    #[verifier::type_invariant]
    spec fn started_while_playing(self) -> bool {
        (self.status == Status::Playing) == self.started_at.is_some()
    }

    /// A stopped clock at time zero, set to run in real time.
    pub fn new() -> (t: Transport)
        ensures
            t@ == TransportView::initial(),
            t@.well_formed(),
    {
        Transport { status: Status::Stopped, rate: NORMAL_RATE, base_time: 0, started_at: None }
    }

    /// Whether the clock runs.
    pub fn status(&self) -> (s: Status)
        ensures
            s == self@.status,
    {
        self.status
    }

    /// Nanoseconds of timeline time gained per microsecond while playing.
    pub fn rate(&self) -> (r: i64)
        ensures
            r == self@.rate,
    {
        self.rate
    }

    /// Timeline time at the wall-clock instant `now`.
    pub fn now_virtual(&self, now: u64) -> (t: i64)
        ensures
            t == self@.time_at(now as int),
    {
        proof {
            use_type_invariant(self);
        }
        match self.started_at {
            Some(s) => {
                let elapsed: u64 = if now >= s {
                    now - s
                } else {
                    0
                };
                advance(self.base_time, self.rate, elapsed)
            },
            None => self.base_time,
        }
    }

    /// Starts, or restarts, the clock at `now`, from `at` where it is given and
    /// from the time the clock holds otherwise.
    pub fn play(&mut self, now: u64, at: Option<i64>)
        ensures
            final(self)@ == old(self)@.play(now as int, opt_int(at)),
            final(self)@.well_formed(),
    {
        let base = match at {
            Some(t) => t,
            None => self.base_time,
        };
        *self = Transport {
            status: Status::Playing,
            rate: self.rate,
            base_time: base,
            started_at: Some(now),
        };
    }

    /// Halts the clock at the time it shows at `now`.
    pub fn pause(&mut self, now: u64)
        ensures
            final(self)@ == old(self)@.pause(now as int),
            final(self)@.well_formed(),
    {
        let base = self.now_virtual(now);
        proof {
            use_type_invariant(&*self);
        }
        *self = Transport {
            status: Status::Paused,
            rate: self.rate,
            base_time: base,
            started_at: None,
        };
    }

    /// Halts the clock and returns it to time zero.
    pub fn stop(&mut self)
        ensures
            final(self)@ == old(self)@.stop(),
            final(self)@.well_formed(),
    {
        *self = Transport {
            status: Status::Stopped,
            rate: self.rate,
            base_time: 0,
            started_at: None,
        };
    }

    /// Moves the clock to `to`; a playing clock goes on playing from there.
    pub fn seek(&mut self, now: u64, to: i64)
        ensures
            final(self)@ == old(self)@.seek(now as int, to as int),
            final(self)@.well_formed(),
    {
        proof {
            use_type_invariant(&*self);
        }
        let started = match self.started_at {
            Some(_) => Some(now),
            None => None,
        };
        *self = Transport {
            status: self.status,
            rate: self.rate,
            base_time: to,
            started_at: started,
        };
    }

    /// Changes the rate. What a playing clock has gained up to `now` is kept,
    /// at the old rate.
    pub fn set_rate(&mut self, now: u64, rate: i64)
        ensures
            final(self)@ == old(self)@.set_rate(now as int, rate as int),
            final(self)@.well_formed(),
    {
        let base = self.now_virtual(now);
        proof {
            use_type_invariant(&*self);
        }
        let started = match self.started_at {
            Some(_) => Some(now),
            None => None,
        };
        *self = Transport { status: self.status, rate, base_time: base, started_at: started };
    }
}

// ------------------------------------------------------------------ laws

/// One request to the clock.
pub enum Op {
    Play(Option<int>),
    Pause,
    Stop,
    Seek(int),
    SetRate(int),
}

/// A request together with the wall-clock instant at which it is served.
pub struct Step {
    pub now: int,
    pub op: Op,
}

impl TransportView {
    /// The clock after one request.
    pub open spec fn apply(self, step: Step) -> TransportView {
        match step.op {
            Op::Play(at) => self.play(step.now, at),
            Op::Pause => self.pause(step.now),
            Op::Stop => self.stop(),
            Op::Seek(to) => self.seek(step.now, to),
            Op::SetRate(rate) => self.set_rate(step.now, rate),
        }
    }

    /// The clock after a sequence of requests, served in order.
    pub open spec fn run(self, steps: Seq<Step>) -> TransportView
        decreases steps.len(),
    {
        if steps.len() == 0 {
            self
        } else {
            self.run(steps.drop_last()).apply(steps.last())
        }
    }
}

/// A request whose numbers fit the machine types that carry them.
pub open spec fn step_fits(step: Step) -> bool {
    &&& 0 <= step.now <= u64::MAX
    &&& match step.op {
        Op::Play(Some(at)) => i64::MIN <= at <= i64::MAX,
        Op::Seek(to) => i64::MIN <= to <= i64::MAX,
        Op::SetRate(rate) => i64::MIN <= rate <= i64::MAX,
        _ => true,
    }
}

/// A request that repositions nothing when it is made of the clock `v`: a
/// pause, a change to a rate that is not negative, or a play without a
/// position while the clock is at rest.
pub open spec fn keeps_position(v: TransportView, op: Op) -> bool {
    match op {
        Op::Pause => true,
        Op::SetRate(rate) => rate >= 0,
        Op::Play(None) => v.status != Status::Playing,
        _ => false,
    }
}

/// Every request of `steps` repositions nothing when it is made, the requests
/// being served in order starting from the clock `v`.
pub open spec fn all_keep_position(v: TransportView, steps: Seq<Step>) -> bool {
    forall|i: int|
        0 <= i < steps.len() ==> keeps_position(v.run(steps.take(i)), (#[trigger] steps[i]).op)
}

/// A request that neither starts the clock nor names a time.
pub open spec fn leaves_at_rest(op: Op) -> bool {
    match op {
        Op::Pause => true,
        Op::Stop => true,
        Op::SetRate(_) => true,
        _ => false,
    }
}

/// The instants of `steps` do not decrease and all lie from `from` to `to`.
pub open spec fn in_order_within(steps: Seq<Step>, from: int, to: int) -> bool {
    &&& forall|i: int| 0 <= i < steps.len() ==> from <= (#[trigger] steps[i]).now <= to
    &&& forall|i: int, j: int|
        0 <= i <= j < steps.len() ==> (#[trigger] steps[i]).now <= (#[trigger] steps[j]).now
}

/// Saturation keeps order and brings two values no further apart.
pub proof fn lemma_saturate(a: int, b: int)
    requires
        a <= b,
    ensures
        saturate(a) <= saturate(b),
        saturate(b) - saturate(a) <= b - a,
        i64::MIN <= saturate(a) <= i64::MAX,
        saturate(saturate(a)) == saturate(a),
{
}

/// Every request keeps a well-formed clock well formed.
pub proof fn lemma_apply_keeps_well_formed(v: TransportView, step: Step)
    requires
        v.well_formed(),
        step_fits(step),
    ensures
        v.apply(step).well_formed(),
{
}

/// Every sequence of requests keeps a well-formed clock well formed.
pub proof fn lemma_run_keeps_well_formed(v: TransportView, steps: Seq<Step>)
    requires
        v.well_formed(),
        forall|i: int| 0 <= i < steps.len() ==> step_fits(#[trigger] steps[i]),
    ensures
        v.run(steps).well_formed(),
    decreases steps.len(),
{
    if steps.len() > 0 {
        let head = steps.drop_last();
        assert forall|i: int| 0 <= i < head.len() implies step_fits(#[trigger] head[i]) by {
            assert(head[i] == steps[i]);
        }
        lemma_run_keeps_well_formed(v, head);
        lemma_apply_keeps_well_formed(v.run(head), steps.last());
    }
}

/// While nothing is asked of a clock whose rate is not negative, its time never
/// runs backwards.
pub proof fn lemma_time_never_runs_backwards(v: TransportView, earlier: int, later: int)
    requires
        v.rate >= 0,
        earlier <= later,
    ensures
        v.time_at(earlier) <= v.time_at(later),
{
    let e1 = v.elapsed(earlier);
    let e2 = v.elapsed(later);
    assert(v.rate * e1 <= v.rate * e2) by (nonlinear_arith)
        requires
            v.rate >= 0,
            e1 <= e2,
    ;
    lemma_saturate(v.base_time + v.rate * e1, v.base_time + v.rate * e2);
}

/// A clock that is paused or stopped shows one and the same time at every
/// instant.
pub proof fn lemma_time_stands_still_at_rest(v: TransportView, a: int, b: int)
    requires
        v.status != Status::Playing,
    ensures
        v.time_at(a) == v.time_at(b),
        v.time_at(a) == v.base_time,
{
}

/// A request that repositions nothing, served at `now`, leaves the time of that
/// instant as it was. In particular a rate change is continuous.
pub proof fn lemma_position_kept_at_the_instant(v: TransportView, step: Step)
    requires
        v.well_formed(),
        step.op is Pause || step.op is SetRate || (step.op == Op::Play(None) && v.status
            != Status::Playing),
    ensures
        v.apply(step).time_at(step.now) == v.time_at(step.now),
{
    let x = v.base_time + v.rate * v.elapsed(step.now);
    lemma_saturate(x, x);
    match step.op {
        Op::SetRate(rate) => {
            if v.status == Status::Playing {
                assert(rate * 0 == 0);
                assert(v.apply(step).elapsed(step.now) == 0);
            }
        },
        Op::Play(_) => {
            assert(v.rate * 0 == 0);
            assert(v.apply(step).elapsed(step.now) == 0);
        },
        _ => {},
    }
}

/// The time read at `earlier`, before a change of rate at `now`, and the time
/// read at `later`, after it, differ by no more than the wall-clock time between
/// the two reads multiplied by the larger of the two rates' magnitudes.
pub proof fn lemma_rate_change_is_continuous(
    v: TransportView,
    earlier: int,
    now: int,
    later: int,
    rate: int,
)
    requires
        v.well_formed(),
        earlier <= now <= later,
    ensures
        v.set_rate(now, rate).time_at(now) == v.time_at(now),
        abs(v.set_rate(now, rate).time_at(later) - v.time_at(earlier)) <= (later - earlier) * max(
            abs(v.rate),
            abs(rate),
        ),
{
    lemma_position_kept_at_the_instant(v, Step { now, op: Op::SetRate(rate) });
    let w = v.set_rate(now, rate);
    let bound = max(abs(v.rate), abs(rate));
    if v.status == Status::Playing {
        let e1 = v.elapsed(earlier);
        let e2 = v.elapsed(now);
        let d = later - now;
        let x1 = v.base_time + v.rate * e1;
        let x2 = v.base_time + v.rate * e2;
        assert(w.elapsed(later) == d);
        // the stretch before the change, at the old rate
        assert(abs(x2 - x1) <= bound * (now - earlier)) by (nonlinear_arith)
            requires
                x2 - x1 == v.rate * e2 - v.rate * e1,
                0 <= e2 - e1 <= now - earlier,
                bound >= abs(v.rate),
        ;
        if x1 <= x2 {
            lemma_saturate(x1, x2);
        } else {
            lemma_saturate(x2, x1);
        }
        // the stretch after the change, at the new rate
        assert(abs(rate * d) <= bound * d) by (nonlinear_arith)
            requires
                d >= 0,
                bound >= abs(rate),
        ;
        let y = saturate(x2) + rate * d;
        if y <= saturate(x2) {
            lemma_saturate(y, saturate(x2));
        } else {
            lemma_saturate(saturate(x2), y);
        }
        lemma_saturate(x2, x2);
        assert(bound * (now - earlier) + bound * d == (later - earlier) * bound)
            by (nonlinear_arith)
            requires
                d == later - now,
        ;
    } else {
        assert(0 <= (later - earlier) * bound) by (nonlinear_arith)
            requires
                later - earlier >= 0,
                bound >= 0,
        ;
    }
}

/// Across any sequence of requests that reposition nothing, served in order
/// between two reads of a clock whose rate is not negative, the later read is
/// no less than the earlier one.
pub proof fn lemma_time_is_monotone_across_requests(
    v: TransportView,
    steps: Seq<Step>,
    earlier: int,
    later: int,
)
    requires
        v.well_formed(),
        v.rate >= 0,
        earlier <= later,
        in_order_within(steps, earlier, later),
        all_keep_position(v, steps),
        forall|i: int| 0 <= i < steps.len() ==> step_fits(#[trigger] steps[i]),
    ensures
        v.time_at(earlier) <= v.run(steps).time_at(later),
        v.run(steps).rate >= 0,
    decreases steps.len(),
{
    if steps.len() == 0 {
        lemma_time_never_runs_backwards(v, earlier, later);
    } else {
        let head = steps.drop_last();
        let step = steps.last();
        assert(step == steps[steps.len() - 1]);
        assert forall|i: int| 0 <= i < head.len() implies step_fits(#[trigger] head[i]) && earlier
            <= head[i].now <= step.now by {
            assert(head[i] == steps[i]);
        }
        assert(all_keep_position(v, head)) by {
            assert forall|i: int| 0 <= i < head.len() implies keeps_position(
                v.run(head.take(i)),
                (#[trigger] head[i]).op,
            ) by {
                assert(head[i] == steps[i]);
                assert(head.take(i) =~= steps.take(i));
            }
        }
        assert(keeps_position(v.run(head), step.op)) by {
            assert(steps.take(steps.len() - 1) =~= head);
        }
        assert(in_order_within(head, earlier, step.now)) by {
            assert forall|i: int, j: int| 0 <= i <= j < head.len() implies (#[trigger] head[i]).now
                <= (#[trigger] head[j]).now by {
                assert(head[i] == steps[i]);
                assert(head[j] == steps[j]);
            }
        }
        lemma_time_is_monotone_across_requests(v, head, earlier, step.now);
        lemma_run_keeps_well_formed(v, head);
        let u = v.run(head);
        lemma_position_kept_at_the_instant(u, step);
        lemma_time_never_runs_backwards(u.apply(step), step.now, later);
    }
}

/// After a stop the clock shows zero at every instant.
pub proof fn lemma_stop_resets(v: TransportView, now: int)
    ensures
        v.stop().time_at(now) == 0,
        v.stop().status == Status::Stopped,
{
}

/// After a stop the clock goes on showing zero, whatever pauses, stops and rate
/// changes follow, until it is started or sent to another time.
pub proof fn lemma_stopped_clock_stays_at_zero(v: TransportView, steps: Seq<Step>, now: int)
    requires
        forall|i: int| 0 <= i < steps.len() ==> leaves_at_rest((#[trigger] steps[i]).op),
    ensures
        v.stop().run(steps).time_at(now) == 0,
        v.stop().run(steps).status != Status::Playing,
        v.stop().run(steps).started_at.is_none(),
    decreases steps.len(),
{
    if steps.len() > 0 {
        let head = steps.drop_last();
        assert forall|i: int| 0 <= i < head.len() implies leaves_at_rest((#[trigger] head[i]).op) by {
            assert(head[i] == steps[i]);
        }
        lemma_stopped_clock_stays_at_zero(v, head, now);
        assert(leaves_at_rest(steps[steps.len() - 1].op));
        lemma_time_stands_still_at_rest(v.stop().run(head), now, 0);
    }
}

/// A seek on a playing clock leaves it playing: it shows the target at the
/// instant of the seek and gains on it at its rate from then on.
pub proof fn lemma_seek_while_playing(v: TransportView, now: int, to: int, later: int)
    requires
        v.status == Status::Playing,
        i64::MIN <= to <= i64::MAX,
        now <= later,
    ensures
        v.seek(now, to).status == Status::Playing,
        v.seek(now, to).rate == v.rate,
        v.seek(now, to).time_at(now) == to,
        v.seek(now, to).time_at(later) == saturate(to + v.rate * (later - now)),
{
    assert(v.rate * 0 == 0);
}

/// The distance of an integer from zero.
pub open spec fn abs(x: int) -> int {
    if x < 0 {
        -x
    } else {
        x
    }
}

/// The larger of two integers.
pub open spec fn max(a: int, b: int) -> int {
    if a >= b {
        a
    } else {
        b
    }
}

} // verus!
