use vstd::prelude::*;

verus! {

use crate::SceError;
use crate::command::SceCommand;
use crate::dispatch::decode_post;
use crate::frame::SceProcContext;
use crate::scefile::SceFile;

/// What is left of a frame stack after the spent activations on top
/// are popped.
pub open spec fn spec_drain(stack: Seq<SceProcContext>, sce: &SceFile) -> Seq<SceProcContext>
    decreases stack.len(),
{
    if stack.len() == 0 {
        stack
    } else if stack.last().spec_completed(sce) {
        spec_drain(stack.drop_last(), sce)
    } else {
        stack
    }
}

/// The stack of procedure activations. The top frame is the active one;
/// when it runs off its end it is popped and decoding resumes beneath.
pub struct SceExecutionContext {
    pub sce: SceFile,
    pub proc_stack: Vec<SceProcContext>,
}

impl SceExecutionContext {
    /// Every frame on the stack points at a real procedure of the file.
    pub open spec fn wf(&self) -> bool {
        forall|i: int| 0 <= i < self.proc_stack@.len() ==> self.proc_stack@[i].wf(&self.sce)
    }

    pub fn new(sce: SceFile) -> (r: SceExecutionContext)
        ensures
            r.wf(),
            r.sce == sce,
            r.proc_stack@.len() == 0,
    {
        SceExecutionContext { sce, proc_stack: Vec::new() }
    }

    /// Replaces the procedure file. Only allowed while no activation is
    /// live: frames of the old file would point into the wrong buffers.
    pub fn set_sce(&mut self, sce: SceFile)
        requires
            old(self).proc_stack@.len() == 0,
        ensures
            final(self).wf(),
            final(self).sce == sce,
            final(self).proc_stack@.len() == 0,
    {
        self.sce = sce;
    }

    /// Pushes a fresh activation of the procedure with this id; locals
    /// do not inherit. `ProcMissing` exactly when the file has none.
    pub fn call_proc(&mut self, proc_id: u32) -> (r: Result<(), SceError>)
        requires
            old(self).wf(),
        ensures
            final(self).wf(),
            final(self).sce == old(self).sce,
            match r {
                Ok(()) => old(self).sce.spec_has_proc(proc_id) && final(self).proc_stack@.len()
                    == old(self).proc_stack@.len() + 1 && final(self).proc_stack@.drop_last()
                    == old(self).proc_stack@ && final(self).proc_stack@.last().spec_fresh(proc_id),
                Err(e) => e == SceError::ProcMissing(proc_id) && !old(self).sce.spec_has_proc(
                    proc_id,
                ) && *final(self) == *old(self),
            },
    {
        match SceProcContext::new_from_id(&self.sce, proc_id) {
            Ok(f) => {
                let ghost gidx = f.proc_idx as int;
                self.proc_stack.push(f);
                proof {
                    assert(self.proc_stack@.drop_last() =~= old(self).proc_stack@);
                    assert(0 <= gidx < old(self).sce.procs@.len() && old(self).sce.procs@[gidx].id
                        == proc_id);
                }
                Ok(())
            },
            Err(e) => Err(e),
        }
    }

    /// Pushes a fresh activation of the procedure the first header of
    /// this name refers to; when the name does not resolve, the context
    /// is exactly as it was. A call by name is best-effort, never an
    /// error.
    pub fn try_call_proc_by_name(&mut self, proc_name: &String)
        requires
            old(self).wf(),
        ensures
            final(self).wf(),
            final(self).sce == old(self).sce,
            old(self).sce.spec_resolves_name(proc_name@) ==> final(self).proc_stack@.len() == old(
                self,
            ).proc_stack@.len() + 1 && final(self).proc_stack@.drop_last() == old(
                self,
            ).proc_stack@ && final(self).proc_stack@.last().spec_fresh(
                final(self).proc_stack@.last().proc_id,
            ) && (exists|i: int|
                old(self).sce.first_header_named(proc_name@, i) && old(self).sce.proc_headers@[
                    i
                ].id == final(self).proc_stack@.last().proc_id),
            !old(self).sce.spec_resolves_name(proc_name@) ==> *final(self) == *old(self),
    {
        match SceProcContext::new_from_name(&self.sce, proc_name) {
            Some(f) => {
                self.proc_stack.push(f);
                proof {
                    assert(self.proc_stack@.drop_last() =~= old(self).proc_stack@);
                }
            },
            None => {},
        }
    }

    /// Jumps the top frame to an absolute byte offset.
    pub fn jump_to(&mut self, addr: u32)
        requires
            old(self).wf(),
            old(self).proc_stack@.len() > 0,
        ensures
            final(self).wf(),
            final(self).sce == old(self).sce,
            final(self).proc_stack@.len() == old(self).proc_stack@.len(),
            final(self).proc_stack@.drop_last() == old(self).proc_stack@.drop_last(),
            final(self).proc_stack@.last() == (SceProcContext {
                program_counter: addr as usize,
                ..old(self).proc_stack@.last()
            }),
    {
        let top = self.proc_stack.len() - 1;
        let f = &mut self.proc_stack[top];
        f.jump_to(addr);
        proof {
            assert(self.proc_stack@.drop_last() =~= old(self).proc_stack@.drop_last());
        }
    }

    /// Writes a local of the top frame. Frames beneath are untouched:
    /// local variables never escape their activation.
    pub fn set_local(&mut self, var: i16, value: i32)
        requires
            old(self).wf(),
            old(self).proc_stack@.len() > 0,
        ensures
            final(self).wf(),
            final(self).sce == old(self).sce,
            final(self).proc_stack@.len() == old(self).proc_stack@.len(),
            final(self).proc_stack@.drop_last() == old(self).proc_stack@.drop_last(),
            final(self).proc_stack@.last().spec_local(var) == Some(value),
            forall|v: i16| v != var ==> final(self).proc_stack@.last().spec_local(v) == old(self).proc_stack@.last().spec_local(v),
            final(self).proc_stack@.last().proc_id == old(self).proc_stack@.last().proc_id,
            final(self).proc_stack@.last().proc_idx == old(self).proc_stack@.last().proc_idx,
            final(self).proc_stack@.last().program_counter == old(self).proc_stack@.last().program_counter,
            final(self).proc_stack@.last().dlgsel == old(self).proc_stack@.last().dlgsel,
    {
        let top = self.proc_stack.len() - 1;
        let f = &mut self.proc_stack[top];
        f.set_local(var, value);
        proof {
            assert(self.proc_stack@.drop_last() =~= old(self).proc_stack@.drop_last());
        }
    }

    /// Reads a local of the top frame.
    pub fn get_local(&mut self, var: i16) -> (r: Option<i32>)
        requires
            old(self).wf(),
            old(self).proc_stack@.len() > 0,
        ensures
            final(self).sce == old(self).sce,
            final(self).proc_stack@ == old(self).proc_stack@,
            r == old(self).proc_stack@.last().spec_local(var),
    {
        let top = self.proc_stack.len() - 1;
        let f = &mut self.proc_stack[top];
        let r = f.get_local(var);
        proof {
            assert(self.proc_stack@ =~= old(self).proc_stack@);
        }
        r
    }

    /// Stores a dialog selection in the top frame.
    pub fn set_dlgsel(&mut self, value: i32)
        requires
            old(self).wf(),
            old(self).proc_stack@.len() > 0,
        ensures
            final(self).wf(),
            final(self).sce == old(self).sce,
            final(self).proc_stack@.len() == old(self).proc_stack@.len(),
            final(self).proc_stack@.drop_last() == old(self).proc_stack@.drop_last(),
            final(self).proc_stack@.last() == (SceProcContext {
                dlgsel: value,
                ..old(self).proc_stack@.last()
            }),
    {
        let top = self.proc_stack.len() - 1;
        let f = &mut self.proc_stack[top];
        f.set_dlgsel(value);
        proof {
            assert(self.proc_stack@.drop_last() =~= old(self).proc_stack@.drop_last());
        }
    }

    /// Reads the top frame's dialog selection.
    pub fn get_dlgsel(&self) -> (r: i32)
        requires
            self.proc_stack@.len() > 0,
        ensures
            r == self.proc_stack@.last().dlgsel,
    {
        self.proc_stack[self.proc_stack.len() - 1].get_dlgsel()
    }

    /// Pops spent activations, then decodes one opcode from the frame
    /// now on top. `Ok(None)` when the stack drained empty: the script
    /// is exhausted. Decoding errors leave the drained stack as it is.
    pub fn get_next_cmd(&mut self) -> (r: Result<Option<SceCommand>, SceError>)
        requires
            old(self).wf(),
        ensures
            final(self).wf(),
            final(self).sce == old(self).sce,
            ({
                let s = spec_drain(old(self).proc_stack@, &old(self).sce);
                if s.len() == 0 {
                    r == Ok::<Option<SceCommand>, SceError>(None) && final(self).proc_stack@ == s
                } else {
                    final(self).proc_stack@.len() == s.len() && final(self).proc_stack@.drop_last()
                        == s.drop_last() && ({
                        let b = old(self).sce.procs@[s.last().proc_idx as int].inst@;
                        let pc = s.last().program_counter as int;
                        match r {
                            Ok(None) => false,
                            Ok(Some(c)) => decode_post(
                                b,
                                pc,
                                Ok((c, final(self).proc_stack@.last().program_counter)),
                            ) && c.wf() && final(self).proc_stack@.last() == (SceProcContext {
                                program_counter: final(self).proc_stack@.last().program_counter,
                                ..s.last()
                            }),
                            Err(e) => decode_post(b, pc, Err(e)) && final(self).proc_stack@ == s,
                        }
                    })
                }
            }),
    {
        loop
            invariant
                self.wf(),
                self.sce == old(self).sce,
                spec_drain(self.proc_stack@, &self.sce) == spec_drain(
                    old(self).proc_stack@,
                    &old(self).sce,
                ),
            decreases self.proc_stack@.len(),
        {
            let len = self.proc_stack.len();
            if len == 0 {
                return Ok(None);
            }
            if self.proc_stack[len - 1].proc_completed(&self.sce) {
                let ghost pre = self.proc_stack@;
                self.proc_stack.pop();
                proof {
                    assert(self.proc_stack@ =~= pre.drop_last());
                }
            } else {
                let top = len - 1;
                let ghost drained = self.proc_stack@;
                proof {
                    assert(spec_drain(drained, &self.sce) == drained);
                }
                let sce = &self.sce;
                let f = &mut self.proc_stack[top];
                let r = f.get_next_cmd(sce);
                proof {
                    assert(self.proc_stack@.drop_last() =~= drained.drop_last());
                    if r is Err {
                        assert(self.proc_stack@ =~= drained);
                    }
                }
                return r;
            }
        }
    }
}

} // verus!
