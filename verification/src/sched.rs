//! The round-robin scheduler over two processes.
use vstd::prelude::*;

verus! {

/// The registers of a process that the scheduler keeps while it does not run:
/// where it resumes and its stack.
#[derive(Debug, Clone, Copy, PartialEq, Eq, Structural)]
pub struct Context {
    pub rip: u64,
    pub rsp: u64,
}

/// A process as the scheduler sees it.
#[derive(Debug, Clone, Copy, PartialEq, Eq, Structural)]
pub struct Process {
    pub context: Context,
}

/// `process` stopped at `rip`: it will resume there, on the same stack.
pub open spec fn stopped_at(process: Process, rip: u64) -> Process {
    Process { context: Context { rip, rsp: process.context.rsp } }
}

/// Round-robin scheduling of two processes.
pub struct Scheduler {
    pub processes: [Process; 2],
    pub current_process: usize,
    pub first_run: bool,
    pub running_critical_process: bool,
    pub enabled: bool,
}

impl Scheduler {
    /// A scheduler that starts with the first process, before its first switch.
    pub fn new(processes: [Process; 2]) -> (s: Self)
        ensures
            s.processes == processes,
            s.current_process == 0,
            s.first_run,
            !s.running_critical_process,
            s.enabled,
    {
        Scheduler {
            processes,
            current_process: 0,
            first_run: true,
            running_critical_process: false,
            enabled: true,
        }
    }

    /// The process that runs now.
    pub fn get(&self) -> (p: Process)
        requires
            self.current_process < 2,
        ensures
            p == self.processes@[self.current_process as int],
    {
        self.processes[self.current_process]
    }

    /// The decision at a timer interrupt that stopped the running process at
    /// `interrupted_rip`. When the scheduler is off nothing changes and `None`
    /// comes back. Otherwise, except on the first run, the interrupted address
    /// is saved in the current process and the other process becomes current;
    /// the stack of the process to resume comes back.
    pub fn call_next(&mut self, interrupted_rip: u64) -> (stack: Option<u64>)
        requires
            old(self).current_process < 2,
        ensures
            final(self).current_process < 2,
            final(self).first_run == old(self).first_run,
            final(self).enabled == old(self).enabled,
            final(self).running_critical_process == old(self).running_critical_process,
            !old(self).enabled ==> *final(self) == *old(self) && stack is None,
            old(self).enabled && old(self).first_run ==> final(self).processes == old(self).processes
                && final(self).current_process == old(self).current_process,
            old(self).enabled && !old(self).first_run ==> final(self).processes@ == old(
                self,
            ).processes@.update(
                old(self).current_process as int,
                stopped_at(old(self).processes@[old(self).current_process as int], interrupted_rip),
            ),
            old(self).enabled && !old(self).first_run ==> final(self).current_process == (old(
                self,
            ).current_process + 1) % 2,
            old(self).enabled ==> stack == Some(
                final(self).processes@[final(self).current_process as int].context.rsp,
            ),
    {
        if !self.enabled {
            return None;
        }
        if !self.first_run {
            let c = self.current_process;
            let rsp = self.processes[c].context.rsp;
            self.processes[c] = Process { context: Context { rip: interrupted_rip, rsp } };
            self.current_process = (c + 1) % 2;
        }
        Some(self.processes[self.current_process].context.rsp)
    }
}

/// Switching keeps the current index on one of the two processes.
pub proof fn lemma_switch_stays_in_range(current: usize, first_run: bool, enabled: bool)
    requires
        current < 2,
    ensures
        (if enabled && !first_run {
            (current + 1) % 2
        } else {
            current as int
        }) < 2,
{
}

} // verus!
