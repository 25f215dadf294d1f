//! The cooperative task that drives one thread: the decisions of its trap loop,
//! and the slot of each CPU that names the thread running there.
//!
//! One round of the loop: take the thread's context, switch into user mode,
//! dispatch the trap. An unhandled trap ends the task at once, without
//! restoring the context. Otherwise, unless the thread has exited already,
//! signals are handled, which may make it exit; the context is restored; an
//! exited thread ends the task; a thread that asked to yield gives up the CPU;
//! then the next round starts.
use vstd::prelude::*;

use crate::error::{Errno, KResult};
use crate::thread::ThreadState;

verus! {

/// What follows the dispatch of a trap.
#[derive(Debug, Clone, Copy, PartialEq, Eq, Structural)]
pub enum AfterDispatch {
    /// The trap was not handled: the task ends now; the context stays taken.
    Terminate,
    /// Handle pending signals, then report whether the thread exited.
    HandleSignal,
    /// Restore the context.
    Restore,
}

/// What follows restoring the context.
#[derive(Debug, Clone, Copy, PartialEq, Eq, Structural)]
pub enum AfterRestore {
    /// The thread exited: the task ends.
    Exit,
    /// Give up the CPU until the scheduler resumes the task, then start again.
    Yield,
    /// Start the next round at once.
    Continue,
}

/// The loop state of the task that runs one thread.
#[derive(Debug, Clone, Copy, PartialEq, Eq, Structural)]
pub struct ThreadTask {
    pub tid: u64,
    /// The thread has exited.
    pub exited: bool,
    /// The loop has ended; no round starts again.
    pub finished: bool,
}

impl ThreadTask {
    /// The task for thread `tid`, before its first round.
    pub fn new(tid: u64) -> (r: Self)
        ensures
            r == (ThreadTask { tid, exited: false, finished: false }),
    {
        ThreadTask { tid, exited: false, finished: false }
    }

    /// Thread state: `RUNNING` while rounds may start; `ZOMBIE` once the loop
    /// has ended, by exit or by an unhandled trap, until the parent collects it.
    pub fn state(&self) -> (r: ThreadState)
        ensures
            r == (if self.finished { ThreadState::ZOMBIE } else { ThreadState::RUNNING }),
    {
        if self.finished {
            ThreadState::ZOMBIE
        } else {
            ThreadState::RUNNING
        }
    }

    /// Whether another round may start.
    pub fn may_run(&self) -> (r: bool)
        ensures
            r == !self.finished,
    {
        !self.finished
    }

    /// Decides what follows the dispatch of a trap that the dispatcher did or
    /// did not handle.
    pub fn on_dispatch(&mut self, handled: bool) -> (r: AfterDispatch)
        requires
            !old(self).finished,
        ensures
            final(self).tid == old(self).tid,
            final(self).exited == old(self).exited,
            final(self).finished == !handled,
            r == (if !handled {
                AfterDispatch::Terminate
            } else if !old(self).exited {
                AfterDispatch::HandleSignal
            } else {
                AfterDispatch::Restore
            }),
    {
        if !handled {
            self.finished = true;
            AfterDispatch::Terminate
        } else if !self.exited {
            AfterDispatch::HandleSignal
        } else {
            AfterDispatch::Restore
        }
    }

    /// Records whether signal handling made the thread exit.
    pub fn on_signal(&mut self, exited: bool)
        requires
            !old(self).finished,
        ensures
            *final(self) == (ThreadTask { exited: old(self).exited || exited, ..*old(self) }),
    {
        self.exited = self.exited || exited;
    }

    /// Decides what follows restoring the context, given whether the trap
    /// handler asked the thread to yield.
    pub fn after_restore(&mut self, should_yield: bool) -> (r: AfterRestore)
        requires
            !old(self).finished,
        ensures
            final(self).tid == old(self).tid,
            final(self).exited == old(self).exited,
            final(self).finished == old(self).exited,
            r == (if old(self).exited {
                AfterRestore::Exit
            } else if should_yield {
                AfterRestore::Yield
            } else {
                AfterRestore::Continue
            }),
    {
        if self.exited {
            self.finished = true;
            AfterRestore::Exit
        } else if should_yield {
            AfterRestore::Yield
        } else {
            AfterRestore::Continue
        }
    }
}

/// For each CPU, the identifier of the thread running there, if any. Only the
/// code running on a CPU writes its own slot.
pub struct CpuSlots {
    pub slots: Vec<Option<u64>>,
}

impl CpuSlots {
    /// `n` CPUs, none running a thread.
    pub fn new(n: usize) -> (r: Self)
        ensures
            r.slots@ == Seq::new(n as nat, |i: int| None::<u64>),
    {
        let mut slots: Vec<Option<u64>> = Vec::new();
        let mut i: usize = 0;
        while i < n
            invariant
                i <= n,
                slots@ == Seq::new(i as nat, |j: int| None::<u64>),
            decreases n - i,
        {
            slots.push(None);
            i = i + 1;
            assert(slots@ =~= Seq::new(i as nat, |j: int| None::<u64>));
        }
        CpuSlots { slots }
    }

    /// Records that `cpu` now runs thread `tid`, or nothing.
    pub fn set(&mut self, cpu: usize, tid: Option<u64>)
        requires
            cpu < old(self).slots.len(),
        ensures
            final(self).slots@ == old(self).slots@.update(cpu as int, tid),
    {
        self.slots.set(cpu, tid);
    }
}

/// The thread running on `cpu`. Fails with `NotFound` when the CPU runs none
/// or has no slot.
pub fn current(slots: &CpuSlots, cpu: usize) -> (r: KResult<u64>)
    ensures
        match r {
            Ok(tid) => cpu < slots.slots.len() && slots.slots@[cpu as int] == Some(tid),
            Err(e) => e == Errno::NotFound && (cpu >= slots.slots.len()
                || slots.slots@[cpu as int] is None),
        },
{
    if cpu >= slots.slots.len() {
        return Err(Errno::NotFound);
    }
    match slots.slots[cpu] {
        Some(tid) => Ok(tid),
        None => Err(Errno::NotFound),
    }
}

} // verus!
