//! Process-wide handle to participation in the parallel job.
//!
//! The real runtime assigns every process a rank (`my_pe`) in
//! `[0, num_pes)` when the job is initialized.  The unverified driver reads
//! those two values from the runtime once, at startup, and builds an
//! `OsmScope` from them; every verified function that needs the participant
//! identity takes the scope as an explicit argument rather than reading
//! ambient global state.

use vstd::prelude::*;

verus! {

/// Identity of one participant within the job: its own rank and the total
/// participant count.  Valid scopes always satisfy `my_pe < num_pes`.
pub struct OsmScope {
    pub my_pe: usize,
    pub num_pes: usize,
}

impl OsmScope {
    /// Whether the scope describes a participant of a live job.
    pub open spec fn wf(&self) -> bool {
        self.my_pe < self.num_pes
    }

    /// Builds the scope from the rank and participant count that the
    /// communication runtime reported at startup.
    pub fn new(my_pe: usize, num_pes: usize) -> (r: OsmScope)
        requires
            my_pe < num_pes,
        ensures
            r.wf(),
            r.my_pe == my_pe,
            r.num_pes == num_pes,
    {
        OsmScope { my_pe, num_pes }
    }

    /// This participant's rank.
    pub fn my_pe(&self) -> (r: usize)
        ensures
            r == self.my_pe,
    {
        self.my_pe
    }

    /// The number of participants in the job.
    pub fn num_pes(&self) -> (r: usize)
        ensures
            r == self.num_pes,
    {
        self.num_pes
    }
}

} // verus!
