use vstd::prelude::*;

verus! {

/// The most copy requests a bulk copy keeps in flight at once.
pub const MAX_IN_FLIGHT_COPIES: usize = 25;

/// What a bulk copy does next.
#[derive(PartialEq, Eq, Structural, Debug, Clone, Copy)]
pub enum CopyStep {
    /// Issue the copy request with this index in the plan.
    Launch(usize),
    /// Wait for one request in flight to complete.
    AwaitOne,
    /// All requests have completed; this many were issued.
    Finished(usize),
}

pub struct ScheduleView {
    pub total: nat,
    pub launched: nat,
    pub completed: nat,
}

impl ScheduleView {
    pub open spec fn in_flight(self) -> int {
        self.launched - self.completed
    }

    /// Requests are issued in plan order, complete after being issued, and
    /// never more than the cap are in flight.
    pub open spec fn wf(self) -> bool {
        &&& self.completed <= self.launched <= self.total
        &&& self.in_flight() <= MAX_IN_FLIGHT_COPIES
    }
}

/// The bounded-concurrency schedule of a bulk copy of `total` objects:
/// requests are issued in plan order while fewer than `MAX_IN_FLIGHT_COPIES`
/// are in flight, completions arrive in any order, and the run reports how
/// many requests completed, whatever their outcome.
pub struct CopySchedule {
    total: usize,
    launched: usize,
    completed: usize,
}

impl View for CopySchedule {
    type V = ScheduleView;

    closed spec fn view(&self) -> ScheduleView {
        ScheduleView {
            total: self.total as nat,
            launched: self.launched as nat,
            completed: self.completed as nat,
        }
    }
}

impl CopySchedule {
    pub fn new(total: usize) -> (r: CopySchedule)
        ensures
            r@.wf(),
            r@ == (ScheduleView { total: total as nat, launched: 0, completed: 0 }),
    {
        CopySchedule { total, launched: 0, completed: 0 }
    }

    pub fn next_step(&self) -> (r: CopyStep)
        requires
            self@.wf(),
        ensures
            self@.launched < self@.total && self@.in_flight() < MAX_IN_FLIGHT_COPIES ==> r
                == CopyStep::Launch(self@.launched as usize),
            !(self@.launched < self@.total && self@.in_flight() < MAX_IN_FLIGHT_COPIES)
                && self@.in_flight() > 0 ==> r == CopyStep::AwaitOne,
            self@.launched == self@.total && self@.in_flight() == 0 ==> r == CopyStep::Finished(
                self@.total as usize,
            ),
            r is Finished ==> self@.completed == self@.total,
    {
        let in_flight = self.launched - self.completed;
        if self.launched < self.total && in_flight < MAX_IN_FLIGHT_COPIES {
            CopyStep::Launch(self.launched)
        } else if in_flight > 0 {
            CopyStep::AwaitOne
        } else {
            CopyStep::Finished(self.total)
        }
    }

    /// Records that the request `next_step` named has been issued.
    pub fn record_launch(&mut self)
        requires
            old(self)@.wf(),
            old(self)@.launched < old(self)@.total,
            old(self)@.in_flight() < MAX_IN_FLIGHT_COPIES,
        ensures
            final(self)@.wf(),
            final(self)@ == (ScheduleView { launched: old(self)@.launched + 1, ..old(self)@ }),
    {
        self.launched = self.launched + 1;
    }

    /// Records that one request in flight has completed, successfully or not.
    pub fn record_completion(&mut self)
        requires
            old(self)@.wf(),
            old(self)@.in_flight() > 0,
        ensures
            final(self)@.wf(),
            final(self)@ == (ScheduleView { completed: old(self)@.completed + 1, ..old(self)@ }),
    {
        self.completed = self.completed + 1;
    }
}

} // verus!
