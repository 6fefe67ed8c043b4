use vstd::prelude::*;

use crate::capture::CaptureStatus;

verus! {

/// Milliseconds the loop sleeps per iteration while it does no capture work.
pub const IDLE_SLEEP_MS: u64 = 100;

/// Lifecycle of one capture-compose-present pipeline.
#[derive(Debug, Clone, Copy, PartialEq, Eq, Structural)]
pub enum PipelineState {
    /// Enabled: capturing and compositing every iteration.
    Active,
    /// Disabled: the surface is hidden and the loop sleeps.
    Idle,
    /// A session was lost this cycle; every capture is about to be rebuilt.
    ReinitPending,
    /// Rebuilding found no outputs; the pipeline has stopped.
    Failed,
}

/// Failure that ends a pipeline.
#[derive(Debug, Clone, Copy, PartialEq, Eq, Structural)]
pub enum PipelineError {
    /// Enumeration found no display output to capture.
    NoOutputs,
}

/// What the overlay surface has to do before this iteration renders.
#[derive(Debug, Clone, Copy, PartialEq, Eq, Structural)]
pub enum SurfaceChange {
    Show,
    Hide,
    Keep,
}

/// The work of one loop iteration.
#[derive(Debug, Clone, Copy, PartialEq, Eq, Structural)]
pub enum Work {
    /// Capture every output and composite a frame.
    Composite,
    /// Frozen: keep the last presented frame on screen; neither capture nor
    /// composite, and sleep like `Sleep` so toggling stays responsive.
    Hold,
    /// Disabled: no capture or composite work; sleep `IDLE_SLEEP_MS`.
    Sleep,
}

/// The decisions of one loop iteration.
#[derive(Debug, Clone, Copy, PartialEq, Eq, Structural)]
pub struct Tick {
    pub surface: SurfaceChange,
    pub work: Work,
}

/// What the capture cycle asks for next.
#[derive(Debug, Clone, Copy, PartialEq, Eq, Structural)]
pub enum CycleStep {
    /// Poll the output with this index.
    Capture(usize),
    /// Every output was polled and one lost its session: rebuild all of them.
    Rebuild,
    /// Every output was polled and nothing needs rebuilding.
    Done,
}

/// The decisions of one iteration, from the surface's shown state and the two signals.
pub open spec fn tick_of(shown: bool, enabled: bool, frozen: bool) -> Tick {
    Tick {
        surface: if shown == enabled {
            SurfaceChange::Keep
        } else if enabled {
            SurfaceChange::Show
        } else {
            SurfaceChange::Hide
        },
        work: if !enabled {
            Work::Sleep
        } else if frozen {
            Work::Hold
        } else {
            Work::Composite
        },
    }
}

/// Whether some output reported a lost session.
pub open spec fn any_lost(statuses: Seq<CaptureStatus>) -> bool {
    exists|k: int| 0 <= k < statuses.len() && statuses[k] == CaptureStatus::AccessLost
}

/// Next step of a cycle over `total` outputs once `statuses` were reported.
pub open spec fn cycle_step(total: nat, statuses: Seq<CaptureStatus>) -> CycleStep {
    if statuses.len() < total {
        CycleStep::Capture(statuses.len() as usize)
    } else if any_lost(statuses) {
        CycleStep::Rebuild
    } else {
        CycleStep::Done
    }
}

/// One pass over every output: each is polled in order, and a rebuild is
/// decided only after all of them reported.
pub struct CaptureCycle {
    pub total: usize,
    pub statuses: Vec<CaptureStatus>,
    pub lost: bool,
}

impl CaptureCycle {
    pub open spec fn wf(&self) -> bool {
        &&& self.statuses@.len() <= self.total
        &&& self.lost == any_lost(self.statuses@)
    }

    /// A cycle over `total` outputs, none of them polled yet.
    pub fn new(total: usize) -> (r: CaptureCycle)
        ensures
            r.wf(),
            r.total == total,
            r.statuses@ == Seq::<CaptureStatus>::empty(),
    {
        CaptureCycle { total, statuses: Vec::new(), lost: false }
    }

    /// The output to poll next, or how the finished cycle ends.
    pub fn next_step(&self) -> (r: CycleStep)
        requires
            self.wf(),
        ensures
            r == cycle_step(self.total as nat, self.statuses@),
    {
        if self.statuses.len() < self.total {
            CycleStep::Capture(self.statuses.len())
        } else if self.lost {
            CycleStep::Rebuild
        } else {
            CycleStep::Done
        }
    }

    /// Records the status of the output that `next_step` asked for.
    pub fn record(&mut self, status: CaptureStatus)
        requires
            old(self).wf(),
            old(self).statuses@.len() < old(self).total,
        ensures
            final(self).wf(),
            final(self).total == old(self).total,
            final(self).statuses@ == old(self).statuses@.push(status),
    {
        let ghost before = self.statuses@;
        self.statuses.push(status);
        if status == CaptureStatus::AccessLost {
            assert(self.statuses@[before.len() as int] == CaptureStatus::AccessLost);
            self.lost = true;
        } else if self.lost {
            proof {
                let k = choose|k: int|
                    0 <= k < before.len() && before[k] == CaptureStatus::AccessLost;
                assert(self.statuses@[k] == CaptureStatus::AccessLost);
            }
        } else {
            assert forall|k: int| 0 <= k < self.statuses@.len() implies self.statuses@[k]
                != CaptureStatus::AccessLost by {
                if k < before.len() {
                    assert(self.statuses@[k] == before[k]);
                }
            }
        }
    }
}

/// A lost session for one output never cuts a cycle short: while outputs
/// remain unpolled the next one is polled, whatever was reported so far, and
/// once all have reported a rebuild follows exactly when one of them lost
/// its session.
pub proof fn lemma_rebuild_waits_for_cycle(total: nat, statuses: Seq<CaptureStatus>)
    requires
        statuses.len() <= total,
    ensures
        statuses.len() < total ==> cycle_step(total, statuses) == CycleStep::Capture(
            statuses.len() as usize,
        ),
        statuses.len() < total ==> cycle_step(total, statuses.push(CaptureStatus::AccessLost))
            != CycleStep::Done,
        statuses.len() + 1 < total ==> cycle_step(total, statuses.push(CaptureStatus::AccessLost))
            == CycleStep::Capture((statuses.len() + 1) as usize),
        statuses.len() == total ==> (cycle_step(total, statuses) == CycleStep::Rebuild
            <==> any_lost(statuses)),
{
    if statuses.len() < total {
        let pushed = statuses.push(CaptureStatus::AccessLost);
        assert(pushed[statuses.len() as int] == CaptureStatus::AccessLost);
    }
}

/// Control state of a running pipeline: its lifecycle state, whether the
/// overlay surface is shown, and how many output captures it owns.
pub struct Pipeline {
    pub state: PipelineState,
    pub shown: bool,
    pub outputs: usize,
}

impl Pipeline {
    /// Captures exist only while not failed, and at least one while active.
    pub open spec fn wf(&self) -> bool {
        &&& (self.state == PipelineState::Failed ==> self.outputs == 0)
        &&& (self.state != PipelineState::Failed ==> self.outputs > 0)
    }

    /// A pipeline over `outputs` freshly enumerated captures, whose surface is
    /// shown or hidden as `shown` says.
    pub fn start(outputs: usize, shown: bool) -> (r: Result<Pipeline, PipelineError>)
        ensures
            outputs == 0 <==> r == Err::<Pipeline, PipelineError>(PipelineError::NoOutputs),
            r matches Ok(p) ==> p.wf() && p.state == PipelineState::Active && p.shown == shown
                && p.outputs == outputs,
    {
        if outputs == 0 {
            Err(PipelineError::NoOutputs)
        } else {
            Ok(Pipeline { state: PipelineState::Active, shown, outputs })
        }
    }

    /// Starts one loop iteration: brings the surface's shown state in line with
    /// `enabled` and decides whether capture and composite work happens.
    pub fn tick(&mut self, enabled: bool, frozen: bool) -> (r: Tick)
        requires
            old(self).wf(),
            old(self).state == PipelineState::Active || old(self).state == PipelineState::Idle,
        ensures
            final(self).wf(),
            r == tick_of(old(self).shown, enabled, frozen),
            final(self).shown == enabled,
            final(self).state == (if enabled {
                PipelineState::Active
            } else {
                PipelineState::Idle
            }),
            final(self).outputs == old(self).outputs,
    {
        let surface = if self.shown == enabled {
            SurfaceChange::Keep
        } else if enabled {
            SurfaceChange::Show
        } else {
            SurfaceChange::Hide
        };
        self.shown = enabled;
        let work = if !enabled {
            self.state = PipelineState::Idle;
            Work::Sleep
        } else {
            self.state = PipelineState::Active;
            if frozen {
                Work::Hold
            } else {
                Work::Composite
            }
        };
        Tick { surface, work }
    }

    /// Ends a capture cycle over every output: a lost session schedules the
    /// rebuild of all captures.
    pub fn finish_cycle(&mut self, cycle: &CaptureCycle)
        requires
            old(self).wf(),
            old(self).state == PipelineState::Active,
            cycle.wf(),
            cycle.statuses@.len() == cycle.total,
        ensures
            final(self).wf(),
            final(self).state == (if any_lost(cycle.statuses@) {
                PipelineState::ReinitPending
            } else {
                PipelineState::Active
            }),
            final(self).shown == old(self).shown,
            final(self).outputs == old(self).outputs,
    {
        if cycle.lost {
            self.state = PipelineState::ReinitPending;
        }
    }

    /// Takes the result of re-enumerating the outputs after a rebuild: with
    /// none the pipeline fails, otherwise it is active again over the new set.
    pub fn rebuilt(&mut self, outputs: usize) -> (r: Result<(), PipelineError>)
        requires
            old(self).wf(),
            old(self).state == PipelineState::ReinitPending,
        ensures
            final(self).wf(),
            outputs == 0 <==> r == Err::<(), PipelineError>(PipelineError::NoOutputs),
            outputs == 0 <==> final(self).state == PipelineState::Failed,
            outputs > 0 ==> final(self).state == PipelineState::Active && final(self).outputs
                == outputs,
            final(self).shown == old(self).shown,
    {
        if outputs == 0 {
            self.state = PipelineState::Failed;
            self.outputs = 0;
            Err(PipelineError::NoOutputs)
        } else {
            self.state = PipelineState::Active;
            self.outputs = outputs;
            Ok(())
        }
    }
}

/// Turning the filter on shows the surface in that same iteration and, unless
/// frozen, composites a frame; while it is off the surface is hidden and the
/// iteration does no capture or composite work at all.
pub proof fn lemma_enable_gates_work(shown: bool, enabled: bool, frozen: bool)
    ensures
        enabled && !shown ==> tick_of(shown, enabled, frozen).surface == SurfaceChange::Show,
        enabled && !frozen ==> tick_of(shown, enabled, frozen).work == Work::Composite,
        !enabled && shown ==> tick_of(shown, enabled, frozen).surface == SurfaceChange::Hide,
        !enabled ==> tick_of(shown, enabled, frozen).work == Work::Sleep,
        tick_of(shown, enabled, frozen).work == Work::Composite ==> enabled,
{
}

} // verus!
