//! Book-keeping of one round of screen captures over all outputs: which
//! frames are outstanding, how many are ready, and the pixels they brought.

use vstd::prelude::*;

verus! {

/// Why a capture round could not be completed.
#[derive(Debug, Clone, Copy, PartialEq, Eq, Structural)]
pub enum CaptureError {
    /// Not every output has signalled that its frame is ready.
    NotReady,
    /// The number of captured canvases differs from the number of outputs.
    WrongCount,
    /// The canvas of this output does not hold `width * height * 4` bytes.
    WrongSize(usize),
}

/// Capture state for all outputs, indexed by output id.
#[derive(Debug)]
pub struct ZwlrScreencopyMode {
    /// Outputs whose frame has signalled ready in this round.
    pub copy_ready: usize,
    /// Whether a frame is outstanding for each output.
    pub pending: Vec<bool>,
    /// The most recent captured pixels of each output (ARGB32, stride `width * 4`).
    pub base_canvas: Vec<Vec<u8>>,
}

impl ZwlrScreencopyMode {
    pub open spec fn wf(&self) -> bool {
        &&& self.pending.len() == self.base_canvas.len()
        &&& self.copy_ready <= self.pending.len()
    }

    /// Number of outputs this session captures.
    pub open spec fn outputs(&self) -> nat {
        self.pending.len() as nat
    }

    /// A session for `n` outputs with nothing requested or captured yet.
    pub fn new(n: usize) -> (r: ZwlrScreencopyMode)
        ensures
            r.wf(),
            r.copy_ready == 0,
            r.outputs() == n,
            forall|i: int| 0 <= i < n ==> !(#[trigger] r.pending@[i]) && r.base_canvas@[i]@.len() == 0,
    {
        let mut pending: Vec<bool> = Vec::new();
        let mut base_canvas: Vec<Vec<u8>> = Vec::new();
        let mut i: usize = 0;
        while i < n
            invariant
                i <= n,
                pending.len() == i && base_canvas.len() == i,
                forall|j: int| 0 <= j < i ==> !(#[trigger] pending@[j]) && base_canvas@[j]@.len() == 0,
            decreases n - i,
        {
            pending.push(false);
            base_canvas.push(Vec::new());
            i += 1;
        }
        assert(forall|j: int| 0 <= j < n ==> !(#[trigger] pending@[j]) && base_canvas@[j]@.len() == 0);
        ZwlrScreencopyMode { copy_ready: 0, pending, base_canvas }
    }

    /// Adds a further output, announced after the session was made.
    pub fn add_output(&mut self)
        requires
            old(self).wf(),
        ensures
            final(self).wf(),
            final(self).copy_ready == old(self).copy_ready,
            final(self).pending@ == old(self).pending@.push(false),
            final(self).base_canvas@.len() == old(self).base_canvas@.len() + 1,
            forall|i: int| 0 <= i < old(self).base_canvas@.len() ==>
                #[trigger] final(self).base_canvas@[i] == old(self).base_canvas@[i],
    {
        self.pending.push(false);
        self.base_canvas.push(Vec::new());
    }

    /// Marks a frame as requested for output `udata`; refused (false) for an
    /// unknown output or one whose frame is still outstanding.
    pub fn request_copy_one(&mut self, udata: usize) -> (r: bool)
        requires
            old(self).wf(),
        ensures
            final(self).wf(),
            r == (udata < old(self).outputs() && !old(self).pending@[udata as int]),
            final(self).copy_ready == old(self).copy_ready,
            final(self).base_canvas@ == old(self).base_canvas@,
            final(self).pending@ == (if r { old(self).pending@.update(udata as int, true) } else { old(self).pending@ }),
    {
        if udata < self.pending.len() && !self.pending[udata] {
            self.pending.set(udata, true);
            true
        } else {
            false
        }
    }

    /// The frame of output `udata` is ready: it is no longer outstanding and
    /// counts once towards the round. A ready signal for a frame that is not
    /// outstanding is ignored (false).
    pub fn frame_ready(&mut self, udata: usize) -> (r: bool)
        requires
            old(self).wf(),
        ensures
            final(self).wf(),
            r == (udata < old(self).outputs() && old(self).pending@[udata as int]
                && old(self).copy_ready < old(self).outputs()),
            final(self).copy_ready == (if r { old(self).copy_ready + 1 } else { old(self).copy_ready as int }),
            final(self).base_canvas@ == old(self).base_canvas@,
            final(self).pending@ == (if r { old(self).pending@.update(udata as int, false) } else { old(self).pending@ }),
    {
        if udata < self.pending.len() && self.pending[udata] && self.copy_ready < self.pending.len() {
            self.pending.set(udata, false);
            self.copy_ready = self.copy_ready + 1;
            true
        } else {
            false
        }
    }

    /// Every output has signalled ready.
    pub fn all_ready(&self) -> (r: bool)
        requires
            self.wf(),
        ensures
            r == (self.copy_ready == self.outputs()),
    {
        self.copy_ready == self.pending.len()
    }

    /// Ends the round: once every output is ready, stores the captured canvases,
    /// which must hold `expected[i]` bytes each, and resets the ready count.
    /// On an error nothing changes.
    pub fn finish_cycle(&mut self, canvases: Vec<Vec<u8>>, expected: &Vec<u64>) -> (r: Result<(), CaptureError>)
        requires
            old(self).wf(),
            expected.len() == old(self).outputs(),
        ensures
            final(self).wf(),
            final(self).outputs() == old(self).outputs(),
            old(self).copy_ready != old(self).outputs() ==> r == Err::<(), CaptureError>(CaptureError::NotReady),
            old(self).copy_ready == old(self).outputs() && canvases.len() != expected.len()
                ==> r == Err::<(), CaptureError>(CaptureError::WrongCount),
            r is Ok <==> (old(self).copy_ready == old(self).outputs() && canvases.len() == expected.len()
                && forall|i: int| 0 <= i < canvases.len() ==> (#[trigger] canvases@[i])@.len() == expected@[i]),
            r matches Err(CaptureError::WrongSize(i)) ==> i < canvases.len()
                && canvases@[i as int]@.len() != expected@[i as int]
                && forall|j: int| 0 <= j < i ==> (#[trigger] canvases@[j])@.len() == expected@[j],
            r is Ok ==> final(self).copy_ready == 0 && final(self).base_canvas@ == canvases@
                && final(self).pending@ == old(self).pending@,
            r is Err ==> *final(self) == *old(self),
    {
        if self.copy_ready != self.pending.len() {
            return Err(CaptureError::NotReady);
        }
        if canvases.len() != expected.len() {
            return Err(CaptureError::WrongCount);
        }
        let mut i: usize = 0;
        while i < canvases.len()
            invariant
                i <= canvases.len(),
                canvases.len() == expected.len(),
                expected.len() == old(self).outputs(),
                *self == *old(self),
                old(self).wf(),
                old(self).copy_ready == old(self).outputs(),
                forall|j: int| 0 <= j < i ==> (#[trigger] canvases@[j])@.len() == expected@[j],
            decreases canvases.len() - i,
        {
            if canvases[i].len() as u128 != expected[i] as u128 {
                return Err(CaptureError::WrongSize(i));
            }
            i += 1;
        }
        self.base_canvas = canvases;
        self.copy_ready = 0;
        Ok(())
    }
}

} // verus!
