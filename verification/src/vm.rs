use vstd::prelude::*;

verus! {

use crate::SceError;
use crate::command::SceCommand;
use crate::scefile::SceFile;
use crate::scene::SceneModel;
use crate::state::{GlobalState, SceState};
use crate::ticks::update_post;

/// How many commands one frame may decode and run before it yields.
pub const DECODE_BUDGET: u64 = 1_000_000;

/// The virtual machine: the script state plus the set of commands that
/// returned unfinished and are ticked again each frame, in the order
/// they were added.
pub struct SceVm {
    pub state: SceState,
    pub active_commands: Vec<SceCommand>,
    /// Ghost record: the run mode has been strict-sequential (1) at
    /// every point since the active set was last empty. Under it the
    /// scheduler keeps at most one active command.
    pub seq_held: Ghost<bool>,
}

impl SceVm {
    /// The machine invariant: the state is sound, the global clock is
    /// nonnegative, every active command is well formed and none of them
    /// is a run-mode switch (those always finish on dispatch), and under
    /// an unbroken strict-sequential mode at most one command is active.
    pub open spec fn wf(&self) -> bool {
        &&& self.state.wf()
        &&& self.state.global_state.time_ms >= 0
        &&& forall|i: int|
            0 <= i < self.active_commands@.len() ==> (#[trigger] self.active_commands@[i]).wf()
                && !(self.active_commands@[i] matches SceCommand::SetRunMode { .. })
        &&& (self.seq_held@ ==> self.state.run_mode == 1 && self.active_commands@.len() <= 1)
    }

    pub fn new(sce: SceFile, global_state: GlobalState) -> (r: SceVm)
        requires
            global_state.time_ms >= 0,
        ensures
            r.wf(),
            r.active_commands@.len() == 0,
            r.state.context.proc_stack@.len() == 0,
            r.state.context.sce == sce,
            r.state.run_mode == 1,
            r.state.global_state == global_state,
            r.state.cmp_flag == false,
    {
        SceVm {
            state: SceState::new(sce, global_state),
            active_commands: Vec::new(),
            seq_held: Ghost(true),
        }
    }

    /// Pushes a fresh activation of the procedure with this id, as on
    /// script entry: the next frame decodes its bytecode from the top.
    pub fn call_proc(&mut self, proc_id: u32) -> (r: Result<(), SceError>)
        requires
            old(self).wf(),
        ensures
            final(self).wf(),
            final(self).active_commands == old(self).active_commands,
            final(self).seq_held == old(self).seq_held,
            final(self).state == (SceState { context: final(self).state.context, ..old(self).state }),
            final(self).state.context.sce == old(self).state.context.sce,
            r is Ok <==> old(self).state.context.sce.spec_has_proc(proc_id),
            match r {
                Ok(()) => final(self).state.context.proc_stack@.len() == old(self).state.context.proc_stack@.len() + 1
                    && final(self).state.context.proc_stack@.drop_last() == old(self).state.context.proc_stack@
                    && final(self).state.context.proc_stack@.last().spec_fresh(proc_id),
                Err(e) => e == SceError::ProcMissing(proc_id) && *final(self) == *old(self),
            },
    {
        self.state.context.call_proc(proc_id)
    }

    pub fn state(&self) -> (r: &SceState)
        ensures
            r == &self.state,
    {
        &self.state
    }

    pub fn global_state(&self) -> (r: &GlobalState)
        ensures
            r == &self.state.global_state,
    {
        &self.state.global_state
    }

    pub fn global_state_mut(&mut self) -> (r: &mut GlobalState)
        ensures
            *r == old(self).state.global_state,
            final(self).state == (crate::state::SceState {
                global_state: *final(r),
                ..old(self).state
            }),
            final(self).active_commands == old(self).active_commands,
            final(self).seq_held == old(self).seq_held,
    {
        &mut self.state.global_state
    }

    /// One frame: the global clock ticks; with an empty active set the
    /// scheduler decodes and runs commands until the script is exhausted
    /// (`Ok(true)`) or, in strict-sequential mode, one command is left
    /// unfinished; with a non-empty active set every active command is
    /// ticked once, the finished ones leave, and nothing is decoded.
    /// Decoding errors and calls to missing procedures surface as `Err`.
    pub fn update(&mut self, scene: &mut SceneModel, delta_ms: i64) -> (r: Result<bool, SceError>)
        requires
            old(self).wf(),
            old(scene).wf(),
            0 <= delta_ms <= 1_000_000,
        ensures
            final(self).wf(),
            final(scene).wf(),
            final(self).state.context.sce == old(self).state.context.sce,
            final(self).seq_held@ ==> final(self).state.run_mode == 1 && final(self).active_commands@.len() <= 1,
            old(self).active_commands@.len() > 0 ==> final(self).active_commands@.len() <= old(self).active_commands@.len() && final(self).state.run_mode == old(self).state.run_mode,
            // The global clock ticks exactly once per frame, before any
            // command is decoded or run; nothing else touches it.
            final(self).state.global_state.items == old(self).state.global_state.items,
            final(self).state.global_state.appearance == old(self).state.global_state.appearance,
            final(self).state.global_state.time_ms == if old(self).state.global_state.time_ms
                + delta_ms <= i64::MAX {
                old(self).state.global_state.time_ms + delta_ms
            } else {
                i64::MAX as int
            },
            // `Ok(true)` exactly when the drained frame stack ran empty;
            // a frame that ticks an already-active set never reports it.
            r == Ok::<bool, SceError>(true) ==> final(self).state.context.proc_stack@.len() == 0,
            old(self).active_commands@.len() == 0 && r == Ok::<bool, SceError>(false) ==> final(self).state.context.proc_stack@.len() >= 1,
            old(self).active_commands@.len() > 0 ==> r != Ok::<bool, SceError>(true),
            // Ticking a single active command is exactly one application
            // of the command tick relation against the clock-ticked
            // state: it stays when unfinished and leaves when done.
            old(self).active_commands@.len() == 1 && r is Ok ==> ({
                let t0 = (SceState { global_state: final(self).state.global_state, ..old(self).state });
                let c0 = old(self).active_commands@[0];
                if final(self).active_commands@.len() == 1 {
                    update_post(c0, final(self).active_commands@[0], *old(scene), *final(scene), t0, final(self).state, delta_ms, Ok::<bool, SceError>(false))
                } else {
                    final(self).active_commands@.len() == 0 && (exists|c1: SceCommand| update_post(c0, c1, *old(scene), *final(scene), t0, final(self).state, delta_ms, Ok::<bool, SceError>(true)))
                }
            }),
    {
        self.state.global_state.update(delta_ms);
        let ghost mid = *self;
        proof {
            assert(mid.state == (SceState { global_state: mid.state.global_state, ..old(self).state }));
        }
        if self.active_commands.len() == 0 {
            self.decode_phase(scene, delta_ms)
        } else {
            match self.tick_phase(scene, delta_ms) {
                Ok(()) => Ok(false),
                Err(e) => Err(e),
            }
        }
    }

    /// Decodes and runs commands until the script is exhausted or the
    /// strict-sequential mode stops at one unfinished command. A frame
    /// runs at most `DECODE_BUDGET` instantaneous commands; a script
    /// spinning longer resumes on the next frame.
    fn decode_phase(&mut self, scene: &mut SceneModel, delta_ms: i64) -> (r: Result<
        bool,
        SceError,
    >)
        requires
            old(self).wf(),
            old(scene).wf(),
            0 <= delta_ms <= 1_000_000,
            old(self).active_commands@.len() == 0,
        ensures
            final(self).wf(),
            final(scene).wf(),
            final(self).state.context.sce == old(self).state.context.sce,
            final(self).state.global_state == old(self).state.global_state,
            r == Ok::<bool, SceError>(true) ==> final(self).state.context.proc_stack@.len() == 0,
            r == Ok::<bool, SceError>(false) ==> final(self).state.context.proc_stack@.len() >= 1,
    {
        proof {
            self.seq_held@ = self.state.run_mode == 1;
        }
        let mut budget: u64 = DECODE_BUDGET;
        loop
            invariant
                self.wf(),
                scene.wf(),
                0 <= delta_ms <= 1_000_000,
                self.state.context.sce == old(self).state.context.sce,
                self.state.global_state == old(self).state.global_state,
                self.seq_held@ ==> self.active_commands@.len() == 0,
                budget < DECODE_BUDGET ==> self.state.context.proc_stack@.len() >= 1,
            decreases budget,
        {
            if budget == 0 {
                return Ok(false);
            }
            budget = budget - 1;
            match self.decode_step(scene, delta_ms) {
                Err(e) => {
                    return Err(e);
                },
                Ok(true) => {
                    return Ok(true);
                },
                Ok(false) => {
                    proof {
                        self.seq_held@ = self.seq_held@ && self.state.run_mode == 1;
                    }
                },
            }
            if self.state.run_mode == 1 && self.active_commands.len() > 0 {
                return Ok(false);
            }
        }
    }

    /// Pulls the next command, runs its setup and first tick, and keeps
    /// it when unfinished. `Ok(true)` means the script is exhausted.
    fn decode_step(&mut self, scene: &mut SceneModel, delta_ms: i64) -> (r: Result<bool, SceError>)
        requires
            old(self).state.wf(),
            old(self).state.global_state.time_ms >= 0,
            old(scene).wf(),
            0 <= delta_ms <= 1_000_000,
            forall|i: int|
                0 <= i < old(self).active_commands@.len() ==> (#[trigger] old(self).active_commands@[i]).wf() && !(old(self).active_commands@[i] matches SceCommand::SetRunMode { .. }),
        ensures
            final(self).state.wf(),
            final(self).state.global_state.time_ms >= 0,
            final(scene).wf(),
            final(self).state.context.sce == old(self).state.context.sce,
            final(self).seq_held == old(self).seq_held,
            old(self).active_commands@.len() <= final(self).active_commands@.len() <= old(self).active_commands@.len() + 1,
            forall|i: int|
                0 <= i < final(self).active_commands@.len() ==> (#[trigger] final(self).active_commands@[i]).wf() && !(final(self).active_commands@[i] matches SceCommand::SetRunMode { .. }),
            final(self).state.global_state == old(self).state.global_state,
            r == Ok::<bool, SceError>(true) ==> final(self).state.context.proc_stack@.len() == 0
                && final(self).active_commands == old(self).active_commands,
            r == Ok::<bool, SceError>(false) ==> final(self).state.context.proc_stack@.len() >= 1,
            r != Ok::<bool, SceError>(false) ==> final(self).state.run_mode == old(self).state.run_mode && final(self).active_commands == old(self).active_commands,
    {
        match self.state.context.get_next_cmd() {
            Err(e) => Err(e),
            Ok(None) => Ok(true),
            Ok(Some(mut cmd)) => {
                cmd.initialize(scene, &mut self.state);
                let finished = match cmd.update(scene, &mut self.state, delta_ms) {
                    Ok(f) => f,
                    Err(e) => {
                        return Err(e);
                    },
                };
                if !finished {
                    let ghost pre = self.active_commands@;
                    self.active_commands.push(cmd);
                    proof {
                        assert(self.active_commands@.drop_last() =~= pre);
                    }
                }
                Ok(false)
            },
        }
    }

    /// Ticks every active command once, in order; finished ones leave.
    fn tick_phase(&mut self, scene: &mut SceneModel, delta_ms: i64) -> (r: Result<(), SceError>)
        requires
            old(self).wf(),
            old(scene).wf(),
            0 <= delta_ms <= 1_000_000,
            old(self).active_commands@.len() > 0,
        ensures
            final(self).wf(),
            final(scene).wf(),
            final(self).state.context.sce == old(self).state.context.sce,
            final(self).state.global_state == old(self).state.global_state,
            final(self).active_commands@.len() <= old(self).active_commands@.len(),
            final(self).state.run_mode == old(self).state.run_mode,
            final(self).seq_held == old(self).seq_held,
            old(self).active_commands@.len() == 1 && r is Ok ==> ({
                let c0 = old(self).active_commands@[0];
                if final(self).active_commands@.len() == 1 {
                    update_post(c0, final(self).active_commands@[0], *old(scene), *final(scene), old(self).state, final(self).state, delta_ms, Ok::<bool, SceError>(false))
                } else {
                    final(self).active_commands@.len() == 0 && (exists|c1: SceCommand| update_post(c0, c1, *old(scene), *final(scene), old(self).state, final(self).state, delta_ms, Ok::<bool, SceError>(true)))
                }
            }),
    {
        let n = self.active_commands.len();
        if n == 1 {
            let mut cmd = self.active_commands.remove(0);
            proof {
                assert(cmd == old(self).active_commands@[0]);
                assert(self.active_commands@.len() == 0);
            }
            let ghost pre_mode = self.state.run_mode;
            let finished = match cmd.update(scene, &mut self.state, delta_ms) {
                Ok(f) => f,
                Err(e) => {
                    return Err(e);
                },
            };
            proof {
                assert(self.state.run_mode == pre_mode);
            }
            if !finished {
                self.active_commands.push(cmd);
                proof {
                    assert(self.active_commands@.len() == 1);
                    assert(self.active_commands@[0] == cmd);
                }
            }
            return Ok(());
        }
        let mut i: usize = 0;
        while i < n
            invariant
                i <= n,
                n == old(self).active_commands@.len(),
                self.wf(),
                scene.wf(),
                0 <= delta_ms <= 1_000_000,
                self.state.context.sce == old(self).state.context.sce,
                self.active_commands@.len() <= n,
                self.active_commands@.len() >= n - i,
                self.state.run_mode == old(self).state.run_mode,
                self.state.global_state == old(self).state.global_state,
                self.seq_held == old(self).seq_held,
            decreases n - i,
        {
            let mut cmd = self.active_commands.remove(0);
            let ghost pre_mode = self.state.run_mode;
            let finished = match cmd.update(scene, &mut self.state, delta_ms) {
                Ok(f) => f,
                Err(e) => {
                    return Err(e);
                },
            };
            proof {
                assert(self.state.run_mode == pre_mode);
            }
            if !finished {
                self.active_commands.push(cmd);
            }
            i = i + 1;
        }
        Ok(())
    }
}

} // verus!
