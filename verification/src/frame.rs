use vstd::prelude::*;

verus! {

use crate::SceError;
use crate::command::SceCommand;
use crate::dispatch::{decode_cmd, decode_post};
use crate::scefile::SceFile;

/// The value a slot of a locals table holds: entries written later win.
pub open spec fn lookup_local(s: Seq<(i16, i32)>, var: i16) -> Option<i32>
    decreases s.len(),
{
    if s.len() == 0 {
        None
    } else if s.last().0 == var {
        Some(s.last().1)
    } else {
        lookup_local(s.drop_last(), var)
    }
}

/// One activation of a procedure: which procedure it runs, a byte
/// program counter into its instruction buffer, frame-scoped local
/// variables, and the most recent dialog selection.
pub struct SceProcContext {
    pub proc_id: u32,
    pub proc_idx: usize,
    pub program_counter: usize,
    pub local_vars: Vec<(i16, i32)>,
    pub dlgsel: i32,
}

impl SceProcContext {
    /// The frame points at a real procedure of this file.
    pub open spec fn wf(&self, sce: &SceFile) -> bool {
        self.proc_idx < sce.procs@.len() && sce.procs@[self.proc_idx as int].id == self.proc_id
    }

    pub open spec fn spec_local(&self, var: i16) -> Option<i32> {
        lookup_local(self.local_vars@, var)
    }

    /// A fresh activation, before its first instruction: no locals, no
    /// selection, the program counter at the top.
    pub open spec fn spec_fresh(&self, proc_id: u32) -> bool {
        self.proc_id == proc_id && self.program_counter == 0 && self.local_vars@.len() == 0
            && self.dlgsel == 0
    }

    /// Builds the activation of the first procedure carrying this id;
    /// `ProcMissing` exactly when the file has none.
    pub fn new_from_id(sce: &SceFile, proc_id: u32) -> (r: Result<SceProcContext, SceError>)
        ensures
            match r {
                Ok(f) => f.wf(sce) && f.spec_fresh(proc_id),
                Err(e) => e == SceError::ProcMissing(proc_id) && !sce.spec_has_proc(proc_id),
            },
    {
        match sce.find_proc(proc_id) {
            Some(idx) => Ok(SceProcContext {
                proc_id,
                proc_idx: idx,
                program_counter: 0,
                local_vars: Vec::new(),
                dlgsel: 0,
            }),
            None => Err(SceError::ProcMissing(proc_id)),
        }
    }

    /// Builds the activation of the procedure the first header of this
    /// name refers to. Absent (not an error) exactly when no header
    /// carries the name or the named id has no instruction buffer: a
    /// call by name is best-effort.
    pub fn new_from_name(sce: &SceFile, proc_name: &String) -> (r: Option<SceProcContext>)
        ensures
            r is Some <==> sce.spec_resolves_name(proc_name@),
            match r {
                Some(f) => f.wf(sce) && f.spec_fresh(f.proc_id) && (exists|i: int|
                    sce.first_header_named(proc_name@, i) && sce.proc_headers@[i].id == f.proc_id),
                None => true,
            },
    {
        match sce.find_id_by_name(proc_name) {
            Some(id) => match Self::new_from_id(sce, id) {
                Ok(f) => {
                    proof {
                        let i = choose|i: int|
                            sce.first_header_named(proc_name@, i) && sce.proc_headers@[i].id == id;
                        assert(sce.first_header_named(proc_name@, i) && sce.spec_has_proc(
                            sce.proc_headers@[i].id,
                        ));
                    }
                    Some(f)
                },
                Err(_) => {
                    proof {
                        let i = choose|i: int|
                            sce.first_header_named(proc_name@, i) && sce.proc_headers@[i].id == id;
                        if sce.spec_resolves_name(proc_name@) {
                            let j = choose|j: int|
                                sce.first_header_named(proc_name@, j) && sce.spec_has_proc(
                                    sce.proc_headers@[j].id,
                                );
                            sce.lemma_first_header_unique(proc_name@, i, j);
                        }
                    }
                    None
                },
            },
            None => {
                proof {
                    if sce.spec_resolves_name(proc_name@) {
                        let j = choose|j: int|
                            sce.first_header_named(proc_name@, j) && sce.spec_has_proc(
                                sce.proc_headers@[j].id,
                            );
                        assert(sce.proc_headers@[j].name@ == proc_name@);
                    }
                }
                None
            },
        }
    }

    /// Writes a frame-scoped local; later writes to the same slot win.
    pub fn set_local(&mut self, var: i16, value: i32)
        ensures
            final(self).spec_local(var) == Some(value),
            forall|v: i16| v != var ==> final(self).spec_local(v) == old(self).spec_local(v),
            final(self).proc_id == old(self).proc_id,
            final(self).proc_idx == old(self).proc_idx,
            final(self).program_counter == old(self).program_counter,
            final(self).dlgsel == old(self).dlgsel,
    {
        self.local_vars.push((var, value));
        proof {
            assert(self.local_vars@.drop_last() =~= old(self).local_vars@);
        }
    }

    pub fn get_local(&mut self, var: i16) -> (r: Option<i32>)
        ensures
            r == old(self).spec_local(var),
            *old(self) == *final(self),
    {
        let mut j: usize = self.local_vars.len();
        proof {
            assert(self.local_vars@.take(j as int) =~= self.local_vars@);
        }
        while j > 0
            invariant
                j <= self.local_vars@.len(),
                lookup_local(self.local_vars@, var) == lookup_local(
                    self.local_vars@.take(j as int),
                    var,
                ),
            decreases j,
        {
            j = j - 1;
            let entry = self.local_vars[j];
            proof {
                assert(self.local_vars@.take(j as int + 1).drop_last() =~= self.local_vars@.take(
                    j as int,
                ));
                assert(self.local_vars@.take(j as int + 1).last() == self.local_vars@[j as int]);
            }
            if entry.0 == var {
                return Some(entry.1);
            }
        }
        proof {
            assert(self.local_vars@.take(0) =~= Seq::<(i16, i32)>::empty());
        }
        None
    }

    pub fn set_dlgsel(&mut self, value: i32)
        ensures
            *final(self) == (SceProcContext { dlgsel: value, ..*old(self) }),
    {
        self.dlgsel = value;
    }

    pub fn get_dlgsel(&self) -> (r: i32)
        ensures
            r == self.dlgsel,
    {
        self.dlgsel
    }

    /// Jumps to an absolute byte offset within this procedure.
    pub fn jump_to(&mut self, addr: u32)
        ensures
            *final(self) == (SceProcContext { program_counter: addr as usize, ..*old(self) }),
    {
        self.program_counter = addr as usize;
    }

    /// The frame is spent: its program counter has run off the buffer.
    pub open spec fn spec_completed(&self, sce: &SceFile) -> bool {
        self.program_counter >= sce.procs@[self.proc_idx as int].inst@.len()
    }

    pub fn proc_completed(&self, sce: &SceFile) -> (r: bool)
        requires
            self.wf(sce),
        ensures
            r == self.spec_completed(sce),
    {
        self.program_counter >= sce.procs[self.proc_idx].inst.len()
    }

    /// Decodes the opcode record at the program counter and advances
    /// past it; `Ok(None)` when the frame is spent. On an error the
    /// program counter keeps its pre-dispatch value, so the offending
    /// bytes can be observed again.
    pub fn get_next_cmd(&mut self, sce: &SceFile) -> (r: Result<Option<SceCommand>, SceError>)
        requires
            old(self).wf(sce),
        ensures
            final(self).wf(sce),
            final(self).proc_id == old(self).proc_id,
            final(self).proc_idx == old(self).proc_idx,
            final(self).local_vars == old(self).local_vars,
            final(self).dlgsel == old(self).dlgsel,
            ({
                let b = sce.procs@[old(self).proc_idx as int].inst@;
                let pc = old(self).program_counter as int;
                if pc >= b.len() {
                    r == Ok::<Option<SceCommand>, SceError>(None)
                        && final(self).program_counter == old(self).program_counter
                } else {
                    match r {
                        Ok(None) => false,
                        Ok(Some(c)) => decode_post(b, pc, Ok((c, final(self).program_counter)))
                            && c.wf(),
                        Err(e) => decode_post(b, pc, Err(e)) && final(self).program_counter == old(
                            self,
                        ).program_counter,
                    }
                }
            }),
    {
        let inst: &Vec<u8> = &sce.procs[self.proc_idx].inst;
        if self.program_counter >= inst.len() {
            return Ok(None);
        }
        match decode_cmd(inst.as_slice(), self.program_counter) {
            Ok((c, w)) => {
                self.program_counter = w;
                Ok(Some(c))
            },
            Err(e) => Err(e),
        }
    }
}

} // verus!
