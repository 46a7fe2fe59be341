use vstd::prelude::*;

verus! {

/// The loaded procedure file: an immutable bundle of procedure headers
/// and per-procedure instruction buffers. Parsing the on-disk form is
/// the loader's business; the virtual machine only reads this shape.
/// A well-formed file carries one instruction buffer per header id, so
/// looking a procedure up in either table names the same set; the
/// machine keys existence on the buffer table, which is what decoding
/// reads.
pub struct SceProcHeader {
    pub id: u32,
    pub name: String,
    pub offset: u32,
}

pub struct SceProc {
    pub id: u32,
    pub inst: Vec<u8>,
}

pub struct SceFile {
    pub proc_headers: Vec<SceProcHeader>,
    pub procs: Vec<SceProc>,
}

impl SceFile {
    /// True when some procedure carries this id.
    pub open spec fn spec_has_proc(&self, id: u32) -> bool {
        exists|i: int| 0 <= i < self.procs@.len() && self.procs@[i].id == id
    }

    /// Index of the first procedure with this id.
    pub fn find_proc(&self, id: u32) -> (r: Option<usize>)
        ensures
            match r {
                Some(i) => i < self.procs@.len() && self.procs@[i as int].id == id && (forall|j: int|
                    0 <= j < i ==> self.procs@[j].id != id),
                None => !self.spec_has_proc(id),
            },
    {
        let mut i: usize = 0;
        while i < self.procs.len()
            invariant
                i <= self.procs@.len(),
                forall|j: int| 0 <= j < i ==> self.procs@[j].id != id,
            decreases self.procs@.len() - i,
        {
            if self.procs[i].id == id {
                return Some(i);
            }
            i = i + 1;
        }
        None
    }

    /// `i` is the first header carrying this name.
    pub open spec fn first_header_named(&self, name: Seq<char>, i: int) -> bool {
        0 <= i < self.proc_headers@.len() && self.proc_headers@[i].name@ == name && (forall|j: int|
            0 <= j < i ==> self.proc_headers@[j].name@ != name)
    }

    /// A name resolves when some header carries it and the first such
    /// header's id has an instruction buffer.
    pub open spec fn spec_resolves_name(&self, name: Seq<char>) -> bool {
        exists|i: int| self.first_header_named(name, i) && self.spec_has_proc(
            self.proc_headers@[i].id,
        )
    }

    /// Two first headers of one name are the same header.
    pub proof fn lemma_first_header_unique(&self, name: Seq<char>, i: int, j: int)
        requires
            self.first_header_named(name, i),
            self.first_header_named(name, j),
        ensures
            i == j,
    {
        if i < j {
            assert(self.proc_headers@[i].name@ != name);
        }
        if j < i {
            assert(self.proc_headers@[j].name@ != name);
        }
    }

    /// Id of the first header whose name matches, if any.
    pub fn find_id_by_name(&self, name: &String) -> (r: Option<u32>)
        ensures
            match r {
                Some(id) => exists|i: int|
                    self.first_header_named(name@, i) && self.proc_headers@[i].id == id,
                None => forall|i: int|
                    0 <= i < self.proc_headers@.len() ==> self.proc_headers@[i].name@ != name@,
            },
    {
        let mut i: usize = 0;
        while i < self.proc_headers.len()
            invariant
                i <= self.proc_headers@.len(),
                forall|j: int| 0 <= j < i ==> self.proc_headers@[j].name@ != name@,
            decreases self.proc_headers@.len() - i,
        {
            let h = &self.proc_headers[i];
            if h.name == *name {
                proof {
                    assert(self.first_header_named(name@, i as int) && self.proc_headers@[
                        i as int
                    ].id == h.id);
                }
                return Some(h.id);
            }
            i = i + 1;
        }
        None
    }
}

} // verus!
