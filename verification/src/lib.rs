//! A fixed-timestep update scheduler and a per-frame input-state tracker.
//!
//! [`GameLoop`] converts variable wall-clock elapsed time into a deterministic
//! number of fixed-size simulation steps, carrying leftover time in an
//! accumulator. The input tracker in [`input`] consumes discrete input events
//! and answers pressed / held / released queries with edge-triggered
//! semantics.
//!
//! All durations are measured in nanoseconds and held in `u64` values.

pub mod input;
pub mod state_map;

use vstd::prelude::*;

verus! {

/// The mathematical state of a [`GameLoop`]: every duration in nanoseconds.
pub ghost struct LoopModel {
    /// The fixed simulation step size.
    pub target_frame_time: nat,
    /// Ceiling applied to any single elapsed measurement before it is
    /// accumulated.
    pub max_frame_time: nat,
    /// Leftover time carried between updates.
    pub accumulated_time: nat,
    /// Total number of simulation steps handed out so far.
    pub total_num_updates: nat,
    /// Sum of all raw (unclamped) elapsed arguments so far.
    pub total_time_passed: nat,
}

/// An elapsed measurement as it enters the accumulator: anything beyond
/// `max_step` is discarded.
pub open spec fn clamp_step(elapsed: nat, max_step: nat) -> nat {
    if elapsed > max_step {
        max_step
    } else {
        elapsed
    }
}

/// How many whole `target` units the drain loop takes out of an accumulator
/// holding `acc`. The comparison is strictly greater-than: an accumulator
/// holding exactly `target` yields no step.
pub open spec fn drain_steps(acc: nat, target: nat) -> nat
    decreases acc,
        when target > 0
{
    if acc <= target {
        0
    } else {
        1 + drain_steps((acc - target) as nat, target)
    }
}

/// What the drain loop leaves in the accumulator: at most `target`, and
/// strictly positive whenever at least one step was taken.
pub open spec fn drain_rem(acc: nat, target: nat) -> nat
    decreases acc,
        when target > 0
{
    if acc <= target {
        acc
    } else {
        drain_rem((acc - target) as nat, target)
    }
}

/// The state of a freshly constructed scheduler.
pub open spec fn fresh_model(target_frame_time: nat, max_frame_time: nat) -> LoopModel {
    LoopModel {
        target_frame_time,
        max_frame_time,
        accumulated_time: 0,
        total_num_updates: 0,
        total_time_passed: 0,
    }
}

/// The drain loop takes out exactly the whole `target` units of `acc` and
/// leaves the rest: steps and remainder balance against the input, the
/// remainder never exceeds one step, and it is strictly positive whenever a
/// step was taken.
pub proof fn lemma_drain(acc: nat, target: nat)
    requires
        target > 0,
    ensures
        drain_steps(acc, target) * target + drain_rem(acc, target) == acc,
        drain_rem(acc, target) <= target,
        drain_steps(acc, target) > 0 ==> drain_rem(acc, target) > 0,
        acc <= target ==> drain_steps(acc, target) == 0,
    decreases acc,
{
    if acc <= target {
    } else {
        lemma_drain((acc - target) as nat, target);
        assert((1 + drain_steps((acc - target) as nat, target)) * target
            == target + drain_steps((acc - target) as nat, target) * target) by (nonlinear_arith);
    }
}

/// The state an update leaves behind: `elapsed` nanoseconds are clamped into
/// the accumulator, whole steps are drained out of it, and the raw (unclamped)
/// elapsed time is added to the running total.
pub open spec fn ticked(pre: LoopModel, elapsed: nat) -> LoopModel {
    let acc = pre.accumulated_time + clamp_step(elapsed, pre.max_frame_time);
    LoopModel {
        target_frame_time: pre.target_frame_time,
        max_frame_time: pre.max_frame_time,
        accumulated_time: drain_rem(acc, pre.target_frame_time),
        total_num_updates: pre.total_num_updates + drain_steps(acc, pre.target_frame_time),
        total_time_passed: pre.total_time_passed + elapsed,
    }
}

/// When an update is defined: the step size is positive (a zero step size
/// would drain forever) and none of the three running sums leaves `u64`.
pub open spec fn can_tick(pre: LoopModel, elapsed: nat) -> bool {
    let acc = pre.accumulated_time + clamp_step(elapsed, pre.max_frame_time);
    &&& pre.target_frame_time > 0
    &&& pre.total_time_passed + elapsed <= u64::MAX
    &&& acc <= u64::MAX
    &&& pre.total_num_updates + drain_steps(acc, pre.target_frame_time) <= u64::MAX
}

/// A fixed-timestep update scheduler.
///
/// Feed it the wall-clock time elapsed since the previous update and it
/// answers how many whole simulation steps of `target_frame_time` nanoseconds
/// are due, keeping the remainder for the next call. A single elapsed
/// measurement is clamped to `max_frame_time` before it is accumulated, so a
/// long stall cannot demand an unbounded burst of catch-up steps.
#[derive(Clone, Debug)]
pub struct GameLoop {
    target_frame_time: u64,
    max_frame_time: u64,
    accumulated_time: u64,

    total_num_updates: u64,
    total_time_passed: u64,
}

impl View for GameLoop {
    type V = LoopModel;

    closed spec fn view(&self) -> LoopModel {
        LoopModel {
            target_frame_time: self.target_frame_time as nat,
            max_frame_time: self.max_frame_time as nat,
            accumulated_time: self.accumulated_time as nat,
            total_num_updates: self.total_num_updates as nat,
            total_time_passed: self.total_time_passed as nat,
        }
    }
}

impl GameLoop {
    /// Create a new `GameLoop` instance.
    ///
    /// Both arguments are in nanoseconds. A zero `target_frame_time` is a
    /// degenerate configuration: [`GameLoop::update`] refuses it.
    pub fn new(target_frame_time: u64, max_frame_time: u64) -> (result: Self)
        ensures
            result@ == fresh_model(target_frame_time as nat, max_frame_time as nat),
    {
        Self {
            target_frame_time,
            max_frame_time,
            accumulated_time: 0,

            total_num_updates: 0,
            total_time_passed: 0,
        }
    }

    /// Set the desired (minimum) time between application updates,
    /// in nanoseconds.
    pub fn set_target_frame_time(&mut self, time: u64)
        ensures
            final(self)@ == (LoopModel { target_frame_time: time as nat, ..old(self)@ }),
    {
        self.target_frame_time = time;
    }

    /// Set the maximum time between application updates, in nanoseconds.
    /// The real time can still be longer; the excess is discarded.
    pub fn set_max_frame_time(&mut self, time: u64)
        ensures
            final(self)@ == (LoopModel { max_frame_time: time as nat, ..old(self)@ }),
    {
        self.max_frame_time = time;
    }

    /// The fixed simulation step size, in nanoseconds.
    pub fn target_frame_time(&self) -> (result: u64)
        ensures
            result as nat == self@.target_frame_time,
    {
        self.target_frame_time
    }

    /// The clamp ceiling for a single elapsed measurement, in nanoseconds.
    pub fn max_frame_time(&self) -> (result: u64)
        ensures
            result as nat == self@.max_frame_time,
    {
        self.max_frame_time
    }

    /// Leftover time carried toward the next update, in nanoseconds.
    pub fn accumulated_time(&self) -> (result: u64)
        ensures
            result as nat == self@.accumulated_time,
    {
        self.accumulated_time
    }

    /// Total number of simulation steps handed out since creation.
    pub fn total_num_updates(&self) -> (result: u64)
        ensures
            result as nat == self@.total_num_updates,
    {
        self.total_num_updates
    }

    /// Sum of all raw elapsed arguments since creation, in nanoseconds.
    pub fn total_time_passed(&self) -> (result: u64)
        ensures
            result as nat == self@.total_time_passed,
    {
        self.total_time_passed
    }

    /// Perform all calculations for an update.
    ///
    /// `elapsed` is the wall-clock time since the previous update, in
    /// nanoseconds; zero is valid and means no progress. The accumulator
    /// receives at most `max_frame_time` of it, whole steps of
    /// `target_frame_time` are drained out, and the raw `elapsed` is added to
    /// `total_time_passed` unclamped.
    pub fn update(&mut self, elapsed: u64) -> (result: UpdateResult)
        requires
            can_tick(old(self)@, elapsed as nat),
        ensures
            final(self)@ == ticked(old(self)@, elapsed as nat),
            final(self)@.accumulated_time <= old(self)@.target_frame_time,
            result.num_updates as nat == final(self)@.total_num_updates
                - old(self)@.total_num_updates,
            result.total_num_updates as nat == final(self)@.total_num_updates,
            result.frame_time as nat == old(self)@.target_frame_time,
            result.accumulated_time as nat == final(self)@.accumulated_time,
            result.total_time_passed as nat == final(self)@.total_time_passed,
            result.exit == false,
    {
        self.total_time_passed = self.total_time_passed + elapsed;

        self.accumulated_time = self.accumulated_time + if elapsed > self.max_frame_time {
            self.max_frame_time
        } else {
            elapsed
        };

        let ghost t: nat = self.target_frame_time as nat;
        let ghost acc0: nat = self.accumulated_time as nat;
        let ghost mid = *self;

        let mut num_updates: u64 = 0;

        while self.accumulated_time > self.target_frame_time
            invariant
                t > 0,
                self.target_frame_time as nat == t,
                self.max_frame_time == mid.max_frame_time,
                self.total_num_updates == mid.total_num_updates,
                self.total_time_passed == mid.total_time_passed,
                num_updates as nat + drain_steps(self.accumulated_time as nat, t)
                    == drain_steps(acc0, t),
                drain_rem(self.accumulated_time as nat, t) == drain_rem(acc0, t),
                mid.total_num_updates as nat + drain_steps(acc0, t) <= u64::MAX,
            decreases self.accumulated_time,
        {
            self.accumulated_time = self.accumulated_time - self.target_frame_time;
            num_updates = num_updates + 1;
        }

        self.total_num_updates = self.total_num_updates + num_updates;

        proof {
            lemma_drain(acc0, t);
        }

        UpdateResult {
            num_updates,
            total_num_updates: self.total_num_updates,

            frame_time: self.target_frame_time,
            accumulated_time: self.accumulated_time,

            total_time_passed: self.total_time_passed,

            exit: false,
        }
    }
}

/// The result of calling [`GameLoop::update`].
///
/// The render-interpolation blending factor is the quotient
/// `accumulated_time / frame_time`; the host computes it in whatever
/// floating-point precision it renders with.
#[derive(Clone, Copy, Debug, PartialEq, Eq, Structural)]
pub struct UpdateResult {
    /// The number of updates due for this tick.
    pub num_updates: u64,
    /// Total number of updates since the [`GameLoop`]'s creation.
    pub total_num_updates: u64,

    /// Time between previous and current update, in nanoseconds.
    /// This is the scheduler's fixed `target_frame_time`.
    pub frame_time: u64,
    /// Leftover accumulated time after this tick, in nanoseconds:
    /// the numerator of the blending factor.
    pub accumulated_time: u64,

    /// Total time passed since the [`GameLoop`]'s creation, in nanoseconds.
    /// This is a sum of the provided `elapsed` arguments.
    pub total_time_passed: u64,

    /// Whether the host's per-step driver should stop running the remaining
    /// steps of this tick. Skipped steps are not replayed later.
    pub exit: bool,
}

/// The state after a fresh scheduler is driven with each elapsed measurement
/// of `es` in turn.
pub open spec fn run_ticks(init: LoopModel, es: Seq<nat>) -> LoopModel
    decreases es.len(),
{
    if es.len() == 0 {
        init
    } else {
        run_ticks(ticked(init, es[0]), es.drop_first())
    }
}

/// One update keeps the books balanced: while no measurement exceeds the
/// clamp ceiling, the steps handed out so far times the step size, plus what
/// is left in the accumulator, is exactly the total elapsed time, and the
/// accumulator holds at most one step.
pub proof fn lemma_ticked_balance(pre: LoopModel, elapsed: nat)
    requires
        pre.target_frame_time > 0,
        elapsed <= pre.max_frame_time,
        pre.accumulated_time <= pre.target_frame_time,
        pre.total_num_updates * pre.target_frame_time + pre.accumulated_time
            == pre.total_time_passed,
    ensures
        ticked(pre, elapsed).target_frame_time == pre.target_frame_time,
        ticked(pre, elapsed).max_frame_time == pre.max_frame_time,
        ticked(pre, elapsed).accumulated_time <= pre.target_frame_time,
        ticked(pre, elapsed).total_num_updates * pre.target_frame_time
            + ticked(pre, elapsed).accumulated_time == ticked(pre, elapsed).total_time_passed,
{
    let t = pre.target_frame_time;
    let acc = pre.accumulated_time + elapsed;
    lemma_drain(acc, t);
    assert((pre.total_num_updates + drain_steps(acc, t)) * t
        == pre.total_num_updates * t + drain_steps(acc, t) * t) by (nonlinear_arith);
}

/// The balance of [`lemma_ticked_balance`] is kept across any sequence of
/// updates whose measurements never exceed the clamp ceiling.
pub proof fn lemma_run_ticks_balance(init: LoopModel, es: Seq<nat>)
    requires
        init.target_frame_time > 0,
        init.accumulated_time <= init.target_frame_time,
        init.total_num_updates * init.target_frame_time + init.accumulated_time
            == init.total_time_passed,
        forall|i: int| 0 <= i < es.len() ==> es[i] <= init.max_frame_time,
    ensures
        run_ticks(init, es).target_frame_time == init.target_frame_time,
        run_ticks(init, es).max_frame_time == init.max_frame_time,
        run_ticks(init, es).accumulated_time <= init.target_frame_time,
        run_ticks(init, es).total_num_updates * init.target_frame_time
            + run_ticks(init, es).accumulated_time == run_ticks(init, es).total_time_passed,
    decreases es.len(),
{
    if es.len() > 0 {
        lemma_ticked_balance(init, es[0]);
        assert(forall|i: int| 0 <= i < es.drop_first().len()
            ==> es.drop_first()[i] == es[i + 1]);
        lemma_run_ticks_balance(ticked(init, es[0]), es.drop_first());
    }
}

/// Law: a scheduler started fresh and fed only elapsed measurements that do
/// not exceed the clamp ceiling hands out, in total, the number of whole
/// target steps contained in the total elapsed time, within one unit; and
/// after every update the accumulator holds at most one target step.
pub proof fn lemma_steps_track_total_elapsed(
    target_frame_time: nat,
    max_frame_time: nat,
    es: Seq<nat>,
)
    requires
        target_frame_time > 0,
        forall|i: int| 0 <= i < es.len() ==> es[i] <= max_frame_time,
    ensures
        ({
            let end = run_ticks(fresh_model(target_frame_time, max_frame_time), es);
            &&& end.accumulated_time <= target_frame_time
            &&& end.total_num_updates <= end.total_time_passed / target_frame_time
            &&& end.total_time_passed / target_frame_time <= end.total_num_updates + 1
        }),
{
    let init = fresh_model(target_frame_time, max_frame_time);
    lemma_run_ticks_balance(init, es);
    let end = run_ticks(init, es);
    let t = target_frame_time as int;
    let n = end.total_num_updates as int;
    let total = end.total_time_passed as int;

    vstd::arithmetic::div_mod::lemma_div_is_ordered(n * t, total, t);
    vstd::arithmetic::div_mod::lemma_div_by_multiple(n, t);
    assert(n <= total / t);

    assert((n + 1) * t == n * t + t) by (nonlinear_arith);
    vstd::arithmetic::div_mod::lemma_div_is_ordered(total, (n + 1) * t, t);
    vstd::arithmetic::div_mod::lemma_div_by_multiple(n + 1, t);
    assert(total / t <= n + 1);
}

} // verus!
