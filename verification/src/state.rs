use vstd::prelude::*;

verus! {

use crate::context::SceExecutionContext;
use crate::scefile::SceFile;

/// Game-wide state the commands read and write: a clock the VM ticks
/// every frame, the party's inventory, and the party-appearance id.
pub struct GlobalState {
    pub time_ms: i64,
    pub items: Vec<i32>,
    pub appearance: i32,
}

pub open spec fn spec_has_item(items: Seq<i32>, id: i32) -> bool {
    exists|i: int| 0 <= i < items.len() && items[i] == id
}

impl GlobalState {
    pub fn new() -> (r: GlobalState)
        ensures
            r.time_ms == 0,
            r.items@.len() == 0,
            r.appearance == 0,
    {
        GlobalState { time_ms: 0, items: Vec::new(), appearance: 0 }
    }

    /// Advances the clock, saturating at the i64 range.
    pub fn update(&mut self, delta_ms: i64)
        requires
            delta_ms >= 0,
            old(self).time_ms >= 0,
        ensures
            final(self).time_ms == if old(self).time_ms + delta_ms <= i64::MAX {
                old(self).time_ms + delta_ms
            } else {
                i64::MAX as int
            },
            final(self).items == old(self).items,
            final(self).appearance == old(self).appearance,
    {
        if delta_ms <= i64::MAX - self.time_ms {
            self.time_ms = self.time_ms + delta_ms;
        } else {
            self.time_ms = i64::MAX;
        }
    }

    pub fn add_item(&mut self, id: i32)
        ensures
            final(self).items@ == old(self).items@.push(id),
            final(self).time_ms == old(self).time_ms,
            final(self).appearance == old(self).appearance,
    {
        self.items.push(id);
    }

    pub fn have_item(&self, id: i32) -> (r: bool)
        ensures
            r == spec_has_item(self.items@, id),
    {
        let mut i: usize = 0;
        while i < self.items.len()
            invariant
                i <= self.items@.len(),
                forall|j: int| 0 <= j < i ==> self.items@[j] != id,
            decreases self.items@.len() - i,
        {
            if self.items[i] == id {
                return true;
            }
            i = i + 1;
        }
        false
    }
}

/// The next state of the script's own linear-congruential random source.
pub open spec fn lcg_next(s: u64) -> u64 {
    (((s as int) * 6364136223846793005 + 1442695040888963407) % 0x1_0000_0000_0000_0000) as u64
}

/// The value a random-branch opcode writes: a draw in `[0, upper)`, or 0
/// when the bound is not positive.
pub open spec fn rnd_value(s: u64, upper: i32) -> i32 {
    if upper <= 0 {
        0
    } else {
        ((lcg_next(s) as int / 0x2_0000_0000) % (upper as int)) as i32
    }
}

/// The whole VM-side state a command may touch: the execution context,
/// the run mode (1 is strict-sequential, 0 interleaves), the comparison
/// flag the compare-and-jump opcodes share, the random source, and the
/// global game state.
pub struct SceState {
    pub global_state: GlobalState,
    pub context: SceExecutionContext,
    pub run_mode: i32,
    pub cmp_flag: bool,
    pub rng: u64,
}

impl SceState {
    pub open spec fn wf(&self) -> bool {
        self.context.wf()
    }

    /// A fresh state over a loaded file: strict-sequential mode, the
    /// comparison flag down, the random source at its fixed seed.
    pub fn new(sce: SceFile, global_state: GlobalState) -> (r: SceState)
        ensures
            r.wf(),
            r.context.proc_stack@.len() == 0,
            r.context.sce == sce,
            r.global_state == global_state,
            r.run_mode == 1,
            r.cmp_flag == false,
            r.rng == 0,
    {
        SceState {
            global_state,
            context: SceExecutionContext::new(sce),
            run_mode: 1,
            cmp_flag: false,
            rng: 0,
        }
    }

    pub fn global_state(&self) -> (r: &GlobalState)
        ensures
            r == &self.global_state,
    {
        &self.global_state
    }

    pub fn global_state_mut(&mut self) -> (r: &mut GlobalState)
        ensures
            *r == old(self).global_state,
            *final(self) == (SceState { global_state: *final(r), ..*old(self) }),
    {
        &mut self.global_state
    }

    pub fn context_mut(&mut self) -> (r: &mut SceExecutionContext)
        ensures
            *r == old(self).context,
            *final(self) == (SceState { context: *final(r), ..*old(self) }),
    {
        &mut self.context
    }

    pub fn run_mode(&self) -> (r: i32)
        ensures
            r == self.run_mode,
    {
        self.run_mode
    }

    pub fn set_run_mode(&mut self, run_mode: i32)
        ensures
            *final(self) == (SceState { run_mode, ..*old(self) }),
    {
        self.run_mode = run_mode;
    }

    /// Draws from the random source: the source steps once and the draw
    /// lies in `[0, upper)` for a positive bound.
    pub fn rnd_next(&mut self, upper: i32) -> (r: i32)
        ensures
            final(self).rng == lcg_next(old(self).rng),
            r == rnd_value(old(self).rng, upper),
            upper > 0 ==> 0 <= r < upper,
            upper <= 0 ==> r == 0,
            *final(self) == (SceState { rng: final(self).rng, ..*old(self) }),
    {
        let next = self.rng.wrapping_mul(6364136223846793005).wrapping_add(1442695040888963407);
        proof {
            let a = (old(self).rng as int) * 6364136223846793005;
            let m = 0x1_0000_0000_0000_0000 as int;
            vstd::arithmetic::div_mod::lemma_mod_bound(a, m);
            vstd::arithmetic::div_mod::lemma_small_mod(1442695040888963407 as nat, m as nat);
            vstd::arithmetic::div_mod::lemma_add_mod_noop(a, 1442695040888963407 as int, m);
            assert(next == lcg_next(old(self).rng));
        }
        self.rng = next;
        if upper <= 0 {
            0
        } else {
            let hi = next / 0x2_0000_0000;
            (hi % (upper as u64)) as i32
        }
    }
}

} // verus!
