//! Threads, processes, and the tables that map identifiers to them.
use std::collections::{BTreeMap, VecDeque};
use std::time::Duration;
use vstd::prelude::*;

use crate::context::{forked_frame, initial_fp_area, zero_registers, zeroed_frame, Context, GeneralRegisters, ThreadContext};
use crate::error::{Errno, KResult};
use crate::net::FileObject;

verus! {

broadcast use vstd::std_specs::btree::group_btree_axioms, vstd::laws_cmp::group_laws_cmp;

/// The state of a thread.
#[derive(Debug, Clone, Copy, PartialEq, Eq, Structural)]
pub enum ThreadState {
    /// Executed by a processor now.
    RUNNING,
    /// Waiting for a resource or an event.
    WAITING,
    /// Sleeping for some time.
    SLEEPING,
    /// Stopped by a signal or another outside event.
    STOPPED,
    /// Terminated; its parent has not collected it yet.
    ZOMBIE,
}

/// How one signal is handled.
#[derive(Debug, Clone, Copy, PartialEq, Eq, Structural)]
pub struct SigAction {
    pub handler: u64,
    pub flags: u64,
    pub mask: u64,
}

/// The alternative stack that signal handlers run on.
#[derive(Debug, Clone, Copy, PartialEq, Eq, Structural)]
pub struct SigStack {
    pub sp: u64,
    pub flags: u64,
    pub size: u64,
}

/// A handle to an address space: the root of its page table, which the memory
/// manager hands out and which is loaded to switch to it.
#[derive(Debug, Clone, Copy, PartialEq, Eq, Structural)]
pub struct AddressSpace {
    pub page_table: u64,
}

/// The unit of resource ownership that groups threads.
pub struct Process {
    pub process_id: u64,
    pub process_group_id: u64,
    /// Identifiers of the threads of this process.
    pub threads: Vec<u64>,
    pub vm: AddressSpace,
    pub exec_path: String,
    pub pwd: String,
    /// Open files by descriptor.
    pub opened_files: BTreeMap<u64, FileObject>,
    pub exit_code: u8,
    /// Signals pending, one bit each.
    pub pending_sigset: u64,
    /// Signals queued for delivery, in order.
    pub sig_queue: VecDeque<u64>,
    /// Threads waiting on each futex, by the futex's user address.
    pub futexes: BTreeMap<u64, Vec<u64>>,
    /// Action of each signal.
    pub actions: [SigAction; 65],
    /// Identifier of the parent process.
    pub parent: u64,
    /// Identifiers of the child processes.
    pub children: Vec<u64>,
}

/// The part of a thread that changes while it runs.
pub struct ThreadInner {
    /// Signals that this thread blocks, one bit each.
    pub sigmask: u64,
    /// The saved context; absent while the thread runs.
    pub thread_context: Option<ThreadContext>,
    pub sigaltstack: SigStack,
}

/// An execution context.
pub struct Thread {
    /// The thread identifier; 0 until the thread is registered.
    pub id: u64,
    /// Identifier of the process the thread belongs to.
    pub parent: u64,
    pub inner: ThreadInner,
    /// The address space of its process.
    pub vm: AddressSpace,
}

/// The thread table and the process table. Each thread is stored under its own
/// identifier. There is no reclamation: no operation removes an entry, so a
/// terminated thread and its process stay registered (as zombies) until an
/// entry under the same identifier replaces them.
pub struct Registry {
    pub threads: BTreeMap<u64, Thread>,
    pub processes: BTreeMap<u64, Process>,
}

/// `id` is the smallest identifier from 1 up that `used` does not hold.
pub open spec fn is_first_free(used: Set<u64>, id: u64) -> bool {
    &&& 1 <= id
    &&& !used.contains(id)
    &&& forall|k: u64| 1 <= k < id ==> used.contains(k)
}

/// `used` holds every identifier from 1 up.
pub open spec fn ids_exhausted(used: Set<u64>) -> bool {
    forall|k: u64| 1 <= k ==> used.contains(k)
}

/// `t` is `old` with the identifier `id`.
pub open spec fn with_id(old: Thread, t: Thread, id: u64) -> bool {
    &&& t.id == id
    &&& t.parent == old.parent
    &&& t.inner == old.inner
    &&& t.vm == old.vm
}

/// `child` is the process that forking `parent` makes under identifier `id`,
/// with the copy-on-write address space `vm`: group, executable path, working
/// directory, open files and signal actions are copied; the thread list holds
/// the new thread alone; pending signals, queued signals, futex waiters and
/// children start empty.
pub open spec fn is_forked_process(child: Process, parent: Process, id: u64, vm: AddressSpace) -> bool {
    &&& child.process_id == id
    &&& child.process_group_id == parent.process_group_id
    &&& child.threads@ == seq![id]
    &&& child.vm == vm
    &&& child.exec_path@ == parent.exec_path@
    &&& child.pwd@ == parent.pwd@
    &&& child.opened_files@ == parent.opened_files@
    &&& child.exit_code == 0
    &&& child.pending_sigset == 0
    &&& child.sig_queue@ == Seq::<u64>::empty()
    &&& child.futexes@ == Map::<u64, Vec<u64>>::empty()
    &&& child.actions == parent.actions
    &&& child.parent == parent.process_id
    &&& child.children@ == Seq::<u64>::empty()
}

/// `child` is the thread that forking `parent` with user frame `ctx` makes
/// under identifier `id`: it runs in its own process `id` and address space
/// `vm`, keeps the signal mask and alternative stack, and its saved frame is
/// `ctx` with the return value register cleared, with fresh floating-point
/// state.
pub open spec fn is_forked_thread(child: Thread, parent: Thread, ctx: Context, id: u64, vm: AddressSpace) -> bool {
    &&& child.id == id
    &&& child.parent == id
    &&& child.vm == vm
    &&& child.inner.sigmask == parent.inner.sigmask
    &&& child.inner.sigaltstack == parent.inner.sigaltstack
    &&& child.inner.thread_context matches Some(c) && *c.user_context == forked_frame(ctx)
        && c.fp_state.area@ == initial_fp_area()
}

/// `p` is `old` with `id` appended to its children.
pub open spec fn with_child(p: Process, old: Process, id: u64) -> bool {
    &&& p.children@ == old.children@.push(id)
    &&& p.process_id == old.process_id
    &&& p.process_group_id == old.process_group_id
    &&& p.threads == old.threads
    &&& p.vm == old.vm
    &&& p.exec_path == old.exec_path
    &&& p.pwd == old.pwd
    &&& p.opened_files == old.opened_files
    &&& p.exit_code == old.exit_code
    &&& p.pending_sigset == old.pending_sigset
    &&& p.sig_queue == old.sig_queue
    &&& p.futexes == old.futexes
    &&& p.actions == old.actions
    &&& p.parent == old.parent
}

/// `t` with its saved context removed.
pub open spec fn without_context(t: Thread) -> Thread {
    Thread { inner: ThreadInner { thread_context: None, ..t.inner }, ..t }
}

/// `t` with `c` as its saved context.
pub open spec fn with_context(t: Thread, c: ThreadContext) -> Thread {
    Thread { inner: ThreadInner { thread_context: Some(c), ..t.inner }, ..t }
}

/// The smallest free identifier from 1 up, where there is one.
pub open spec fn first_free(used: Set<u64>) -> u64 {
    choose|id: u64| is_first_free(used, id)
}

/// The identifiers in a table that held `used`, after `n` threads without an
/// identifier have been registered into it one after another.
pub open spec fn registered_from(used: Set<u64>, n: nat) -> Set<u64>
    decreases n,
{
    if n == 0 {
        used
    } else {
        let s = registered_from(used, (n - 1) as nat);
        s.insert(first_free(s))
    }
}

/// The identifiers in the table after `n` threads without an identifier have
/// been registered, one after another, into an empty table.
pub open spec fn auto_registered(n: nat) -> Set<u64> {
    registered_from(Set::empty(), n)
}

pub const PAGE_SIZE: u64 = 0x1000;
/// Lowest address of the user stack.
pub const USER_STACK_START: u64 = 0x7fff_0000_0000;
/// Size of the user stack, the pages for start-up information included.
pub const USER_STACK_SIZE: u64 = 0x10_0000;
/// Pages at the top of the user stack reserved for start-up information
/// (arguments, environment, auxiliary vector).
pub const INIT_INFO_PAGES: u64 = 4;
/// Identifier of the thread that the debug bootstrap starts.
pub const DEBUG_THREAD_ID: u64 = 0xdeadbeef;
/// Identifier of the process of that thread.
pub const DEBUG_PROC_ID: u64 = 0xbeefdead;
/// Parent identifier of a process without a parent.
pub const NO_PARENT: u64 = 0xffff_ffff;
/// Flags of a fresh user frame: interrupts enabled, I/O privilege level 3, and
/// the reserved bit.
pub const USER_RFLAGS: u64 = 0x3202;

/// How a range of user memory is mapped.
#[derive(Debug, Clone, Copy, PartialEq, Eq, Structural)]
pub struct ArenaFlags {
    pub user_accessible: bool,
    pub non_executable: bool,
    pub writable: bool,
}

/// A range of addresses, from `start` up to `end` excluded, that the memory
/// manager is to map with `flags`.
#[derive(Debug, Clone, Copy, PartialEq, Eq, Structural)]
pub struct Arena {
    pub start: u64,
    pub end: u64,
    pub flags: ArenaFlags,
}

/// The two arenas of a user stack: the stack proper, then the pages for
/// start-up information at its top; both user-accessible, writable, and not
/// executable.
pub open spec fn user_stack_arenas() -> Seq<Arena> {
    let flags = ArenaFlags { user_accessible: true, non_executable: true, writable: true };
    let top = USER_STACK_START + USER_STACK_SIZE;
    let info = top - PAGE_SIZE * INIT_INFO_PAGES;
    seq![
        Arena { start: USER_STACK_START, end: info as u64, flags },
        Arena { start: info as u64, end: top as u64, flags },
    ]
}

/// The busy-wait granularity of `sleep`, in milliseconds.
pub const TICK_MILLIS: u128 = 10;
/// One tick, in the microseconds that a countdown takes.
pub const TICK_MICROS: u64 = 10_000;

/// Whole ticks in `millis` milliseconds, rounded down, at most `u64::MAX`.
pub open spec fn tick_count(millis: u128) -> u64 {
    if millis / TICK_MILLIS > u64::MAX as u128 {
        u64::MAX
    } else {
        (millis / TICK_MILLIS) as u64
    }
}

/// A one-shot timer that blocks the calling core for the given microseconds.
pub trait Countdown {
    /// The countdowns made so far, in microseconds each, oldest first.
    spec fn waited(&self) -> Seq<u64>;

    /// Blocks for `micros` microseconds.
    fn countdown(&mut self, micros: u64)
        ensures
            final(self).waited() == old(self).waited().push(micros),
    ;
}

/// `n` countdowns of one tick each.
pub open spec fn ticks(n: nat) -> Seq<u64> {
    Seq::new(n, |i: int| TICK_MICROS)
}

/// The whole milliseconds in a duration.
pub uninterp spec fn millis_of(d: Duration) -> u128;

/// Relies on `Duration::as_millis`: the whole milliseconds in `d`, a function
/// of `d` alone.
#[verifier::external_body]
fn duration_millis(d: &Duration) -> (r: u128)
    ensures
        r == millis_of(*d),
{
    d.as_millis()
}

/// Blocks the core for `millis` milliseconds, rounded down to whole ticks, one
/// countdown of a tick at a time. Returns the ticks waited.
pub fn sleep_millis<C: Countdown>(millis: u128, timer: &mut C) -> (r: u64)
    ensures
        r == tick_count(millis),
        final(timer).waited() == old(timer).waited() + ticks(tick_count(millis) as nat),
{
    let whole = millis / TICK_MILLIS;
    let total: u64 = if whole > u64::MAX as u128 { u64::MAX } else { whole as u64 };
    let mut cnt = total;
    while cnt != 0
        invariant
            cnt <= total,
            timer.waited() == old(timer).waited() + ticks((total - cnt) as nat),
        decreases cnt,
    {
        timer.countdown(TICK_MICROS);
        cnt = cnt - 1;
        assert(timer.waited() =~= old(timer).waited() + ticks((total - cnt) as nat));
    }
    total
}

/// Puts the current core to sleep for `duration`, rounded down to whole
/// 10-millisecond ticks. Nothing else runs on the core meanwhile. Returns the
/// ticks waited.
pub fn sleep<C: Countdown>(duration: Duration, timer: &mut C) -> (r: u64)
    ensures
        r == tick_count(millis_of(duration)),
        final(timer).waited() == old(timer).waited() + ticks(tick_count(millis_of(duration)) as nat),
{
    let millis = duration_millis(&duration);
    sleep_millis(millis, timer)
}

/// What `fork` of thread `parent` with user frame `ctx` and address space `vm`
/// does to the tables `before`, leaving `after`, and returns as `r`. The child
/// takes the smallest identifier free in the thread table; when a process is
/// already registered under it, fork fails rather than replace that process.
pub open spec fn fork_outcome(
    parent: Thread,
    ctx: Context,
    vm: AddressSpace,
    before: Registry,
    after: Registry,
    r: KResult<u64>,
) -> bool {
    let used = before.threads@.dom();
    &&& r is Ok <==> !ids_exhausted(used) && before.processes@.contains_key(parent.parent)
        && !before.processes@.contains_key(first_free(used))
    &&& match r {
        Ok(id) => {
            let threads = after.threads@;
            let procs = after.processes@;
            let old_procs = before.processes@;
            &&& is_first_free(used, id)
            &&& threads == before.threads@.insert(id, threads[id])
            &&& is_forked_thread(threads[id], parent, ctx, id, vm)
            &&& procs.dom() == old_procs.dom().insert(id)
            &&& is_forked_process(procs[id], old_procs[parent.parent], id, vm)
            &&& with_child(procs[parent.parent], old_procs[parent.parent], id)
            &&& forall|k: u64| k != id && k != parent.parent && old_procs.contains_key(k)
                ==> procs[k] == old_procs[k]
        },
        Err(e) => {
            &&& e == (if ids_exhausted(used) {
                Errno::NoIdAvailable
            } else if !before.processes@.contains_key(parent.parent) {
                Errno::NotFound
            } else {
                Errno::ProcessIdInUse
            })
            &&& after.threads@ == before.threads@
            &&& after.processes@ == before.processes@
        },
    }
}

impl Registry {
    /// Empty tables.
    pub fn new() -> (r: Self)
        ensures
            r.threads@ == Map::<u64, Thread>::empty(),
            r.processes@ == Map::<u64, Process>::empty(),
    {
        Registry { threads: BTreeMap::new(), processes: BTreeMap::new() }
    }
}

impl Registry {
    /// Takes the saved context of thread `tid`, as `Thread::take` does. Fails
    /// with `NotFound`, changing nothing, when no such thread is registered.
    pub fn take_context(&mut self, tid: u64) -> (r: KResult<ThreadContext>)
        ensures
            final(self).processes@ == old(self).processes@,
            !old(self).threads@.contains_key(tid) ==> r == Err::<ThreadContext, Errno>(Errno::NotFound)
                && final(self).threads@ == old(self).threads@,
            old(self).threads@.contains_key(tid) ==> {
                let t = old(self).threads@[tid];
                &&& final(self).threads@ == old(self).threads@.insert(tid, without_context(t))
                &&& match t.inner.thread_context {
                    Some(c) => r == Ok::<ThreadContext, Errno>(c),
                    None => r == Err::<ThreadContext, Errno>(Errno::InvalidState),
                }
            },
    {
        match self.threads.remove(&tid) {
            Some(mut t) => {
                let r = t.take();
                self.threads.insert(tid, t);
                r
            },
            None => Err(Errno::NotFound),
        }
    }

    /// Stores `ctx` as the saved context of thread `tid`, as `Thread::restore`
    /// does. Fails with `NotFound`, changing nothing, when no such thread is
    /// registered.
    pub fn restore_context(&mut self, tid: u64, ctx: ThreadContext) -> (r: KResult<()>)
        ensures
            final(self).processes@ == old(self).processes@,
            !old(self).threads@.contains_key(tid) ==> r == Err::<(), Errno>(Errno::NotFound)
                && final(self).threads@ == old(self).threads@,
            old(self).threads@.contains_key(tid) ==> r == Ok::<(), Errno>(())
                && final(self).threads@ == old(self).threads@.insert(tid, with_context(old(self).threads@[tid], ctx)),
    {
        match self.threads.remove(&tid) {
            Some(mut t) => {
                t.restore(ctx);
                self.threads.insert(tid, t);
                Ok(())
            },
            None => Err(Errno::NotFound),
        }
    }
}

/// Finds the smallest thread identifier from 1 up that the thread table does not
/// hold.
pub fn find_available_tid(registry: &Registry) -> (r: KResult<u64>)
    ensures
        match r {
            Ok(id) => is_first_free(registry.threads@.dom(), id),
            Err(e) => e == Errno::NoIdAvailable && ids_exhausted(registry.threads@.dom()),
        },
{
    let mut id: u64 = 1;
    loop
        invariant
            1 <= id,
            forall|k: u64| 1 <= k < id ==> registry.threads@.dom().contains(k),
        decreases u64::MAX - id,
    {
        if !registry.threads.contains_key(&id) {
            return Ok(id);
        }
        if id == u64::MAX {
            assert forall|k: u64| 1 <= k implies registry.threads@.dom().contains(k) by {
                if k < id {
                } else {
                    assert(k == id);
                }
            }
            return Err(Errno::NoIdAvailable);
        }
        id = id + 1;
    }
}

impl Thread {
    /// Registers this thread in the thread table and returns its identifier. A
    /// thread with identifier 0 gets the smallest free one; any other identifier
    /// is kept, and a thread already stored under it is replaced.
    pub fn register(self, registry: &mut Registry) -> (r: KResult<u64>)
        ensures
            final(registry).processes@ == old(registry).processes@,
            self.id != 0 ==> r == Ok::<u64, Errno>(self.id),
            self.id == 0 ==> match r {
                Ok(id) => is_first_free(old(registry).threads@.dom(), id),
                Err(e) => e == Errno::NoIdAvailable && ids_exhausted(old(registry).threads@.dom()),
            },
            match r {
                Ok(id) => {
                    &&& final(registry).threads@.dom() == old(registry).threads@.dom().insert(id)
                    &&& with_id(self, final(registry).threads@[id], id)
                    &&& forall|k: u64| k != id && old(registry).threads@.contains_key(k)
                        ==> final(registry).threads@[k] == old(registry).threads@[k]
                },
                Err(_) => final(registry).threads@ == old(registry).threads@,
            },
    {
        let mut this = self;
        let id = if this.id == 0 {
            match find_available_tid(registry) {
                Ok(id) => id,
                Err(e) => return Err(e),
            }
        } else {
            this.id
        };
        this.id = id;
        registry.threads.insert(id, this);
        Ok(id)
    }

    /// Forks this thread: makes a new process, a copy of this thread's process
    /// under the smallest identifier free in the thread table, with the
    /// copy-on-write address space `vm`, and in it a new thread whose saved
    /// frame is `context` with the return value register cleared. Registers
    /// both, records the child in the parent process, and returns the new
    /// identifier. This thread is not changed. Fails with `NoIdAvailable` when
    /// every identifier is taken, else with `NotFound` when this thread's
    /// process is not registered, else with `ProcessIdInUse` when a process is
    /// registered under the new identifier; the tables are then unchanged.
    pub fn fork(&self, context: &Context, vm: AddressSpace, registry: &mut Registry) -> (r: KResult<u64>)
        ensures
            fork_outcome(*self, *context, vm, *old(registry), *final(registry), r),
    {
        let id = match find_available_tid(registry) {
            Ok(id) => id,
            Err(e) => return Err(e),
        };
        proof {
            lemma_first_free_is_chosen(registry.threads@.dom(), id);
        }
        let child_process = match registry.processes.get(&self.parent) {
            Some(parent) => Process {
                process_id: id,
                process_group_id: parent.process_group_id,
                threads: vec![id],
                vm,
                exec_path: parent.exec_path.clone(),
                pwd: parent.pwd.clone(),
                opened_files: parent.opened_files.clone(),
                exit_code: 0,
                pending_sigset: 0,
                sig_queue: VecDeque::new(),
                futexes: BTreeMap::new(),
                actions: parent.actions,
                parent: parent.process_id,
                children: Vec::new(),
            },
            None => return Err(Errno::NotFound),
        };
        if registry.processes.contains_key(&id) {
            return Err(Errno::ProcessIdInUse);
        }
        let ghost old_procs = registry.processes@;
        assert(child_process.threads@ =~= seq![id]);
        match registry.processes.remove(&self.parent) {
            Some(mut parent) => {
                parent.children.push(id);
                registry.processes.insert(self.parent, parent);
            },
            None => {},
        }
        registry.processes.insert(id, child_process);
        let child = Thread {
            id,
            parent: id,
            inner: ThreadInner {
                sigmask: self.inner.sigmask,
                thread_context: Some(ThreadContext::new(context.forked())),
                sigaltstack: self.inner.sigaltstack,
            },
            vm,
        };
        registry.threads.insert(id, child);
        assert(registry.processes@.dom() =~= old_procs.dom().insert(id));
        Ok(id)
    }

    /// Adds the user stack to the arenas of an address space being built, and
    /// returns the stack top.
    pub fn prepare_user_stack(arenas: &mut Vec<Arena>) -> (r: KResult<u64>)
        ensures
            final(arenas)@ == old(arenas)@ + user_stack_arenas(),
            r == Ok::<u64, Errno>((USER_STACK_START + USER_STACK_SIZE) as u64),
    {
        let top = USER_STACK_START + USER_STACK_SIZE;
        let info = top - PAGE_SIZE * INIT_INFO_PAGES;
        let flags = ArenaFlags { user_accessible: true, non_executable: true, writable: true };
        arenas.push(Arena { start: USER_STACK_START, end: info, flags });
        arenas.push(Arena { start: info, end: top, flags });
        assert(arenas@ =~= old(arenas)@ + user_stack_arenas());
        Ok(top)
    }

    /// The debug bootstrap: starts a thread at `entry_point` of an image already
    /// mapped into `vm`. Adds the user stack to `arenas`; makes the thread,
    /// with the fixed debug identifiers, whose frame starts at the entry point
    /// with the stack pointer at the stack top, in a process of its own without
    /// parent; registers both (a thread or process already under those
    /// identifiers is replaced) and returns the thread identifier.
    pub fn from_raw(entry_point: u64, vm: AddressSpace, arenas: &mut Vec<Arena>, registry: &mut Registry) -> (r: KResult<u64>)
        ensures
            r == Ok::<u64, Errno>(DEBUG_THREAD_ID),
            final(arenas)@ == old(arenas)@ + user_stack_arenas(),
            final(registry).threads@.dom() == old(registry).threads@.dom().insert(DEBUG_THREAD_ID),
            final(registry).processes@.dom() == old(registry).processes@.dom().insert(DEBUG_PROC_ID),
            forall|k: u64| k != DEBUG_THREAD_ID && old(registry).threads@.contains_key(k)
                ==> final(registry).threads@[k] == old(registry).threads@[k],
            forall|k: u64| k != DEBUG_PROC_ID && old(registry).processes@.contains_key(k)
                ==> final(registry).processes@[k] == old(registry).processes@[k],
            ({
                let t = final(registry).threads@[DEBUG_THREAD_ID];
                &&& t.id == DEBUG_THREAD_ID
                &&& t.parent == DEBUG_PROC_ID
                &&& t.vm == vm
                &&& t.inner.sigmask == 0
                &&& t.inner.sigaltstack == (SigStack { sp: 0, flags: 0, size: 0 })
                &&& t.inner.thread_context matches Some(c) && c.fp_state.area@ == initial_fp_area()
                    && *c.user_context == (Context {
                    regs: GeneralRegisters { rflags: USER_RFLAGS, ..zero_registers() },
                    rip: entry_point,
                    rsp: (USER_STACK_START + USER_STACK_SIZE) as u64,
                    ..zeroed_frame()
                })
            }),
            ({
                let p = final(registry).processes@[DEBUG_PROC_ID];
                &&& p.process_id == DEBUG_PROC_ID
                &&& p.process_group_id == DEBUG_PROC_ID
                &&& p.vm == vm
                &&& p.parent == NO_PARENT
                &&& p.exec_path@ == Seq::<char>::empty()
                &&& p.pwd@ == seq!['.']
                &&& p.opened_files@ == Map::<u64, FileObject>::empty()
                &&& p.threads@ == Seq::<u64>::empty()
                &&& p.children@ == Seq::<u64>::empty()
                &&& p.exit_code == 0
                &&& p.pending_sigset == 0
                &&& p.sig_queue@ == Seq::<u64>::empty()
                &&& p.futexes@ == Map::<u64, Vec<u64>>::empty()
                &&& forall|i: int| 0 <= i < 65 ==> p.actions@[i] == (SigAction { handler: 0, flags: 0, mask: 0 })
            }),
    {
        let stack_top = match Thread::prepare_user_stack(arenas) {
            Ok(top) => top,
            Err(e) => return Err(e),
        };
        let mut context = Context::zeroed();
        context.set_rip(entry_point);
        context.set_rsp(stack_top);
        context.regs.rflags = USER_RFLAGS;
        let thread = Thread {
            id: DEBUG_THREAD_ID,
            parent: DEBUG_PROC_ID,
            inner: ThreadInner {
                sigmask: 0,
                thread_context: Some(ThreadContext::new(context)),
                sigaltstack: SigStack { sp: 0, flags: 0, size: 0 },
            },
            vm,
        };
        let no_action = SigAction { handler: 0, flags: 0, mask: 0 };
        let pwd = String::from_str(".");
        proof {
            reveal_strlit(".");
        }
        let process = Process {
            process_id: DEBUG_PROC_ID,
            process_group_id: DEBUG_PROC_ID,
            threads: Vec::new(),
            vm,
            exec_path: String::new(),
            pwd,
            opened_files: BTreeMap::new(),
            exit_code: 0,
            pending_sigset: 0,
            sig_queue: VecDeque::new(),
            futexes: BTreeMap::new(),
            actions: [no_action; 65],
            parent: NO_PARENT,
            children: Vec::new(),
        };
        let id = match thread.register(registry) {
            Ok(id) => id,
            Err(e) => return Err(e),
        };
        registry.processes.insert(DEBUG_PROC_ID, process);
        Ok(id)
    }

    /// Removes and returns the saved context. Fails with `InvalidState`, and
    /// changes nothing, when the context is absent (already taken).
    pub fn take(&mut self) -> (r: KResult<ThreadContext>)
        ensures
            *final(self) == without_context(*old(self)),
            match old(self).inner.thread_context {
                Some(c) => r == Ok::<ThreadContext, Errno>(c),
                None => r == Err::<ThreadContext, Errno>(Errno::InvalidState),
            },
    {
        match self.inner.thread_context.take() {
            Some(c) => Ok(c),
            None => Err(Errno::InvalidState),
        }
    }

    /// Stores `ctx` as the saved context, replacing any present one.
    pub fn restore(&mut self, ctx: ThreadContext)
        ensures
            *final(self) == with_context(*old(self), ctx),
    {
        self.inner.thread_context = Some(ctx);
    }
}

/// There is at most one smallest free identifier.
pub proof fn lemma_first_free_unique(used: Set<u64>, a: u64, b: u64)
    requires
        is_first_free(used, a),
        is_first_free(used, b),
    ensures
        a == b,
{
    if a < b {
        assert(used.contains(a));
    } else if b < a {
        assert(used.contains(b));
    }
}

/// The identifier that `register` and `fork` pick is the one `first_free`
/// names.
pub proof fn lemma_first_free_is_chosen(used: Set<u64>, id: u64)
    requires
        is_first_free(used, id),
    ensures
        first_free(used) == id,
{
    lemma_first_free_unique(used, first_free(used), id);
}

/// Registering threads without an identifier one after another into an empty
/// table hands out 1, 2, ..., n: the table then holds exactly those n
/// identifiers, one entry for each registration, all distinct.
pub proof fn lemma_auto_registration_counts_from_one(n: nat)
    requires
        n < u64::MAX,
    ensures
        auto_registered(n) == Set::new(|k: u64| 1 <= k <= n),
        auto_registered(n).finite(),
        auto_registered(n).len() == n,
    decreases n,
{
    if n == 0 {
        assert(auto_registered(0) =~= Set::new(|k: u64| 1 <= k <= 0));
    } else {
        let m = (n - 1) as nat;
        lemma_auto_registration_counts_from_one(m);
        let used = auto_registered(m);
        let next = n as u64;
        assert(is_first_free(used, next));
        lemma_first_free_is_chosen(used, next);
        assert(auto_registered(n) =~= Set::new(|k: u64| 1 <= k <= n));
    }
}

/// One more registration without an identifier, as `register` states it (the
/// table's identifiers gain the smallest free one), extends the sequence that
/// `registered_from` describes by one call.
pub proof fn lemma_register_extends_sequence(used: Set<u64>, n: nat, id: u64)
    requires
        is_first_free(registered_from(used, n), id),
    ensures
        registered_from(used, n).insert(id) == registered_from(used, n + 1),
{
    lemma_first_free_is_chosen(registered_from(used, n), id);
}

/// A table of fewer than `u64::MAX - 1` entries has a free identifier.
pub proof fn lemma_small_table_has_free_id(used: Set<u64>)
    requires
        used.finite(),
        used.len() < u64::MAX - 1,
    ensures
        !ids_exhausted(used),
{
    if ids_exhausted(used) {
        let n = (u64::MAX - 1) as nat;
        lemma_auto_registration_counts_from_one(n);
        assert(auto_registered(n).subset_of(used));
        vstd::set_lib::lemma_len_subset(auto_registered(n), used);
    }
}

/// Where `k` is free, a smallest free identifier exists.
pub proof fn lemma_first_free_exists(used: Set<u64>, k: u64)
    requires
        1 <= k,
        !used.contains(k),
    ensures
        is_first_free(used, first_free(used)),
    decreases k,
{
    if forall|j: u64| 1 <= j < k ==> used.contains(j) {
        assert(is_first_free(used, k));
    } else {
        let j = choose|j: u64| 1 <= j < k && !used.contains(j);
        lemma_first_free_exists(used, j);
    }
}

/// Registering `n` threads without an identifier one after another into any
/// table with room for them (the table and the `n` new entries stay below
/// `u64::MAX - 1`) gives each the smallest identifier free at its turn, never
/// one already in use: the table keeps every identifier it held and gains
/// exactly `n` new, pairwise distinct ones. A lock held across each
/// registration makes concurrent registrations such a sequence.
pub proof fn lemma_auto_registration_from_any_table(used: Set<u64>, n: nat)
    requires
        used.finite(),
        used.len() + n < u64::MAX - 1,
    ensures
        registered_from(used, n).finite(),
        registered_from(used, n).len() == used.len() + n,
        used.subset_of(registered_from(used, n)),
        forall|i: nat| i < n ==> is_first_free(#[trigger] registered_from(used, i), first_free(registered_from(used, i))),
    decreases n,
{
    if n > 0 {
        let m = (n - 1) as nat;
        lemma_auto_registration_from_any_table(used, m);
        let s = registered_from(used, m);
        lemma_small_table_has_free_id(s);
        let k = choose|k: u64| 1 <= k && !s.contains(k);
        lemma_first_free_exists(s, k);
        assert forall|i: nat| i < n implies is_first_free(#[trigger] registered_from(used, i), first_free(registered_from(used, i))) by {
            if i < m {
            } else {
                assert(i == m);
            }
        }
    }
}

/// Taking the saved context and restoring the same value leaves the thread as
/// it was; after a take, the context is absent, so a second take without a
/// restore fails with `InvalidState`.
pub proof fn lemma_take_restore_round_trip(t: Thread)
    requires
        (t.inner.thread_context is Some),
    ensures
        with_context(without_context(t), t.inner.thread_context->Some_0) == t,
        (without_context(t).inner.thread_context is None),
{
}

/// A forked child's frame equals the parent's in every field but the return
/// value register, which is zero.
pub proof fn lemma_forked_frame_differs_only_in_rax(c: Context)
    ensures
        forked_frame(c).regs.rax == 0,
        (Context { regs: GeneralRegisters { rax: c.regs.rax, ..forked_frame(c).regs }, ..forked_frame(c) })
            == c,
{
}

/// Forking leaves every thread that was registered before, the forking one
/// included, with its saved state: the child goes under an identifier that
/// was free.
pub proof fn lemma_fork_keeps_registered_threads(
    parent: Thread,
    ctx: Context,
    vm: AddressSpace,
    before: Registry,
    after: Registry,
    r: KResult<u64>,
)
    requires
        fork_outcome(parent, ctx, vm, before, after, r),
    ensures
        forall|k: u64| before.threads@.contains_key(k)
            ==> after.threads@.contains_key(k) && after.threads@[k] == before.threads@[k],
{
}

/// When a thread identifier is free, the forking thread's process is
/// registered, and no process holds the new identifier, fork succeeds, and the child's saved frame is the given one bit for bit but
/// for the return value register, which is zero.
pub proof fn lemma_fork_child_frame(
    parent: Thread,
    ctx: Context,
    vm: AddressSpace,
    before: Registry,
    after: Registry,
    r: KResult<u64>,
)
    requires
        fork_outcome(parent, ctx, vm, before, after, r),
        !ids_exhausted(before.threads@.dom()),
        before.processes@.contains_key(parent.parent),
        !before.processes@.contains_key(first_free(before.threads@.dom())),
    ensures
        r is Ok,
        after.threads@[r->Ok_0].inner.thread_context is Some,
        ({
            let frame = *after.threads@[r->Ok_0].inner.thread_context->Some_0.user_context;
            &&& frame.regs.rax == 0
            &&& (Context { regs: GeneralRegisters { rax: ctx.regs.rax, ..frame.regs }, ..frame }) == ctx
        }),
{
}

} // verus!
