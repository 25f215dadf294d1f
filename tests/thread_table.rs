use std::collections::{BTreeMap, VecDeque};
use std::time::Duration;

use kthread::context::{Context, ThreadContext, UserMode, FpState};
use kthread::error::Errno;
use kthread::net::FileObject;
use kthread::thread::{
    find_available_tid, sleep, sleep_millis, AddressSpace, Countdown, Process, Registry, SigAction,
    SigStack, Thread, ThreadInner,
};

fn frame(seed: u64) -> Context {
    let mut c = Context::zeroed();
    c.regs.rax = seed;
    c.regs.rbx = seed + 1;
    c.regs.r15 = seed + 2;
    c.regs.rflags = 0x3202;
    c.trapno = 0x80;
    c.rip = 0x4000_0000 + seed;
    c.rsp = 0x7fff_0000;
    c.cs = 0x23;
    c.ss = 0x1b;
    c
}

fn thread(id: u64, parent: u64, seed: u64) -> Thread {
    Thread {
        id,
        parent,
        inner: ThreadInner {
            sigmask: 0x5,
            thread_context: Some(ThreadContext::new(frame(seed))),
            sigaltstack: SigStack { sp: 0x9000, flags: 0, size: 0x1000 },
        },
        vm: AddressSpace { page_table: 0x1000 + id },
    }
}

fn process(pid: u64) -> Process {
    let mut files = BTreeMap::new();
    files.insert(3, FileObject::Inode(42));
    let mut actions = [SigAction { handler: 0, flags: 0, mask: 0 }; 65];
    actions[2] = SigAction { handler: 0x1234, flags: 1, mask: 2 };
    Process {
        process_id: pid,
        process_group_id: 7,
        threads: vec![pid],
        vm: AddressSpace { page_table: 0x1000 + pid },
        exec_path: "/bin/sh".to_string(),
        pwd: "/home".to_string(),
        opened_files: files,
        exit_code: 3,
        pending_sigset: 0x10,
        sig_queue: VecDeque::from(vec![2, 9]),
        futexes: BTreeMap::new(),
        actions,
        parent: 0,
        children: vec![],
    }
}

fn saved_rip(r: &Registry, id: u64) -> Option<u64> {
    r.threads.get(&id).unwrap().inner.thread_context.as_ref().map(|c| c.user_context.rip)
}

#[test]
fn register_scenario_overwrites_explicit_id() {
    let mut reg = Registry::new();
    assert_eq!(thread(0, 1, 10).register(&mut reg), Ok(1));
    assert_eq!(reg.threads.keys().copied().collect::<Vec<_>>(), vec![1]);
    assert_eq!(saved_rip(&reg, 1), Some(0x4000_0000 + 10));

    assert_eq!(thread(1, 1, 20).register(&mut reg), Ok(1));
    assert_eq!(reg.threads.keys().copied().collect::<Vec<_>>(), vec![1]);
    assert_eq!(saved_rip(&reg, 1), Some(0x4000_0000 + 20));

    assert_eq!(thread(0, 1, 30).register(&mut reg), Ok(2));
    assert_eq!(reg.threads.keys().copied().collect::<Vec<_>>(), vec![1, 2]);
    assert_eq!(reg.threads.get(&2).unwrap().id, 2);
}

#[test]
fn auto_registration_hands_out_one_to_n() {
    let mut reg = Registry::new();
    let mut ids = Vec::new();
    for i in 0..6 {
        ids.push(thread(0, 1, i).register(&mut reg).unwrap());
    }
    assert_eq!(ids, vec![1, 2, 3, 4, 5, 6]);
    assert_eq!(reg.threads.len(), 6);
    for (id, t) in reg.threads.iter() {
        assert_eq!(*id, t.id);
    }
}

#[test]
fn find_available_tid_fills_gaps() {
    let mut reg = Registry::new();
    assert_eq!(find_available_tid(&reg), Ok(1));
    thread(1, 1, 0).register(&mut reg).unwrap();
    thread(2, 1, 0).register(&mut reg).unwrap();
    thread(4, 1, 0).register(&mut reg).unwrap();
    assert_eq!(find_available_tid(&reg), Ok(3));
    assert_eq!(thread(0, 1, 0).register(&mut reg), Ok(3));
    assert_eq!(find_available_tid(&reg), Ok(5));
}

#[test]
fn take_then_restore_round_trip() {
    let mut t = thread(5, 1, 77);
    let ctx = t.take().unwrap();
    assert!(t.inner.thread_context.is_none());
    assert_eq!(*ctx.user_context, frame(77));
    t.restore(ctx);
    let back = t.inner.thread_context.as_ref().unwrap();
    assert_eq!(*back.user_context, frame(77));
    assert_eq!(back.fp_state.area, FpState::new().area);
    assert_eq!(t.id, 5);
    assert_eq!(t.inner.sigmask, 0x5);
}

#[test]
fn take_twice_fails_with_invalid_state() {
    let mut t = thread(5, 1, 1);
    assert!(t.take().is_ok());
    assert!(matches!(t.take(), Err(Errno::InvalidState)));
    assert!(t.inner.thread_context.is_none());
}

#[test]
fn registry_take_and_restore_by_id() {
    let mut reg = Registry::new();
    thread(0, 1, 8).register(&mut reg).unwrap();
    assert!(matches!(reg.take_context(9), Err(Errno::NotFound)));
    let ctx = reg.take_context(1).unwrap();
    assert!(matches!(reg.take_context(1), Err(Errno::InvalidState)));
    assert_eq!(reg.restore_context(1, ctx), Ok(()));
    assert_eq!(saved_rip(&reg, 1), Some(0x4000_0000 + 8));
    assert_eq!(reg.restore_context(9, ThreadContext::new(frame(0))), Err(Errno::NotFound));
}

#[test]
fn fork_child_frame_has_zero_return_value() {
    let mut reg = Registry::new();
    reg.processes.insert(1, process(1));
    let parent = thread(1, 1, 0);
    thread(1, 1, 0).register(&mut reg).unwrap();
    let syscall_frame = frame(99);
    let child = parent.fork(&syscall_frame, AddressSpace { page_table: 0xbeef }, &mut reg).unwrap();
    assert_eq!(child, 2);
    let t = reg.threads.get(&child).unwrap();
    let saved = t.inner.thread_context.as_ref().unwrap();
    let mut expected = syscall_frame;
    expected.regs.rax = 0;
    assert_eq!(*saved.user_context, expected);
    assert_eq!(saved.user_context.regs.rbx, 100);
    assert_eq!(saved.user_context.rip, syscall_frame.rip);
    assert_eq!(saved.fp_state.area, FpState::new().area);
    assert_eq!(t.parent, 2);
    assert_eq!(t.vm, AddressSpace { page_table: 0xbeef });
    assert_eq!(t.inner.sigmask, parent.inner.sigmask);
    assert_eq!(t.inner.sigaltstack, parent.inner.sigaltstack);
}

#[test]
fn fork_leaves_parent_untouched() {
    let mut reg = Registry::new();
    reg.processes.insert(1, process(1));
    let parent = thread(1, 1, 5);
    thread(1, 1, 5).register(&mut reg).unwrap();
    let child = parent.fork(&frame(6), AddressSpace { page_table: 0x2 }, &mut reg).unwrap();
    assert_eq!(child, 2);
    assert_eq!(*parent.inner.thread_context.as_ref().unwrap().user_context, frame(5));
    assert_eq!(saved_rip(&reg, 1), Some(0x4000_0000 + 5));
    assert_eq!(reg.threads.get(&1).unwrap().inner.thread_context.as_ref().unwrap().user_context.regs.rax, 5);
}

#[test]
fn fork_copies_process_state() {
    let mut reg = Registry::new();
    reg.processes.insert(1, process(1));
    let parent = thread(1, 1, 0);
    thread(1, 1, 0).register(&mut reg).unwrap();
    let child = parent.fork(&frame(1), AddressSpace { page_table: 0x77 }, &mut reg).unwrap();
    let p = reg.processes.get(&child).unwrap();
    assert_eq!(p.process_id, 2);
    assert_eq!(p.process_group_id, 7);
    assert_eq!(p.threads, vec![2]);
    assert_eq!(p.vm, AddressSpace { page_table: 0x77 });
    assert_eq!(p.exec_path, "/bin/sh");
    assert_eq!(p.pwd, "/home");
    assert_eq!(p.opened_files.get(&3), Some(&FileObject::Inode(42)));
    assert_eq!(p.exit_code, 0);
    assert_eq!(p.pending_sigset, 0);
    assert!(p.sig_queue.is_empty());
    assert!(p.futexes.is_empty());
    assert_eq!(p.actions[2], SigAction { handler: 0x1234, flags: 1, mask: 2 });
    assert_eq!(p.parent, 1);
    assert!(p.children.is_empty());
    let parent_process = reg.processes.get(&1).unwrap();
    assert_eq!(parent_process.children, vec![2]);
    assert_eq!(parent_process.sig_queue, VecDeque::from(vec![2, 9]));
}

#[test]
fn fork_without_parent_process_is_not_found() {
    let mut reg = Registry::new();
    let parent = thread(1, 1, 0);
    thread(1, 1, 0).register(&mut reg).unwrap();
    assert_eq!(parent.fork(&frame(1), AddressSpace { page_table: 1 }, &mut reg), Err(Errno::NotFound));
    assert_eq!(reg.threads.len(), 1);
    assert!(reg.processes.is_empty());
}

struct CountingTimer {
    calls: Vec<u64>,
}

impl Countdown for CountingTimer {
    fn waited(&self) -> vstd::seq::Seq<u64> {
        panic!("model only")
    }

    fn countdown(&mut self, micros: u64) {
        self.calls.push(micros);
    }
}

#[test]
fn sleep_25ms_is_two_ticks() {
    let mut timer = CountingTimer { calls: vec![] };
    assert_eq!(sleep(Duration::from_millis(25), &mut timer), 2);
    assert_eq!(timer.calls, vec![10_000, 10_000]);
}

#[test]
fn sleep_rounds_down_and_handles_short_waits() {
    let mut timer = CountingTimer { calls: vec![] };
    assert_eq!(sleep(Duration::from_millis(9), &mut timer), 0);
    assert!(timer.calls.is_empty());
    assert_eq!(sleep(Duration::from_secs(1), &mut timer), 100);
    assert_eq!(timer.calls.len(), 100);
    let mut t2 = CountingTimer { calls: vec![] };
    assert_eq!(sleep_millis(30, &mut t2), 3);
    assert_eq!(t2.calls.len(), 3);
}

struct FakeCpu {
    log: Vec<&'static str>,
}

impl UserMode for FakeCpu {
    fn fp_regs(&self) -> vstd::seq::Seq<u64> {
        panic!("model only")
    }

    fn runs(&self) -> vstd::seq::Seq<(vstd::seq::Seq<u64>, Context)> {
        panic!("model only")
    }

    fn fxrstor(&mut self, _fp: &FpState) {
        self.log.push("fxrstor");
    }
    fn run(&mut self, ctx: &mut Context) {
        self.log.push("run");
        ctx.trapno = 14;
        ctx.regs.rax = 60;
    }
    fn fxsave(&mut self, fp: &mut FpState) {
        self.log.push("fxsave");
        fp.area[1] = 0xabc;
    }
}

#[test]
fn switch_restores_runs_and_saves() {
    let mut ctx = ThreadContext::new(frame(0));
    let mut cpu = FakeCpu { log: vec![] };
    ctx.switch(&mut cpu);
    assert_eq!(cpu.log, vec!["fxrstor", "run", "fxsave"]);
    assert_eq!(ctx.get_trapno(), 14);
    assert_eq!(ctx.fp_state.area[1], 0xabc);
    ctx.get_user_context().regs.rax = 7;
    assert_eq!(ctx.user_context.regs.rax, 7);
}

#[test]
fn context_setters_and_fresh_fp_state() {
    let mut c = Context::zeroed();
    c.set_rip(0x401000);
    c.set_rsp(0x7ffff000);
    assert_eq!(c.rip, 0x401000);
    assert_eq!(c.rsp, 0x7ffff000);
    assert_eq!(c.forked().regs.rax, 0);
    let fp = FpState::new();
    assert_eq!(fp.area[0], 0x037f);
    assert_eq!(fp.area[3], 0x1f80);
    assert_eq!(fp.area.iter().filter(|w| **w != 0).count(), 2);
}

use kthread::thread::{
    Arena, ArenaFlags, DEBUG_PROC_ID, DEBUG_THREAD_ID, NO_PARENT, PAGE_SIZE, USER_STACK_SIZE, USER_STACK_START,
};

#[test]
fn user_stack_is_two_arenas() {
    let mut arenas = vec![];
    let top = Thread::prepare_user_stack(&mut arenas).unwrap();
    assert_eq!(top, USER_STACK_START + USER_STACK_SIZE);
    let flags = ArenaFlags { user_accessible: true, non_executable: true, writable: true };
    assert_eq!(
        arenas,
        vec![
            Arena { start: USER_STACK_START, end: top - 4 * PAGE_SIZE, flags },
            Arena { start: top - 4 * PAGE_SIZE, end: top, flags },
        ]
    );
}

#[test]
fn debug_bootstrap_registers_fixed_ids() {
    let mut reg = Registry::new();
    let mut arenas = vec![];
    let vm = AddressSpace { page_table: 0x5000 };
    assert_eq!(Thread::from_raw(0x40_1000, vm, &mut arenas, &mut reg), Ok(DEBUG_THREAD_ID));
    assert_eq!(arenas.len(), 2);
    let t = reg.threads.get(&DEBUG_THREAD_ID).unwrap();
    assert_eq!(t.parent, DEBUG_PROC_ID);
    let c = t.inner.thread_context.as_ref().unwrap().user_context.as_ref();
    assert_eq!(c.rip, 0x40_1000);
    assert_eq!(c.rsp, USER_STACK_START + USER_STACK_SIZE);
    assert_eq!(c.regs.rflags, 0x3202);
    assert_eq!(c.regs.rax, 0);
    let p = reg.processes.get(&DEBUG_PROC_ID).unwrap();
    assert_eq!(p.parent, NO_PARENT);
    assert_eq!(p.pwd, ".");
    assert_eq!(p.exec_path, "");
    assert_eq!(p.vm, vm);
    // The fixed identifier does not disturb automatic ones.
    assert_eq!(thread(0, 1, 0).register(&mut reg), Ok(1));
}

#[test]
fn fork_takes_smallest_free_thread_id() {
    let mut reg = Registry::new();
    reg.processes.insert(7, process(7));
    let parent = thread(7, 7, 0);
    thread(7, 7, 0).register(&mut reg).unwrap();
    assert_eq!(parent.fork(&frame(3), AddressSpace { page_table: 9 }, &mut reg), Ok(1));
    assert_eq!(parent.fork(&frame(4), AddressSpace { page_table: 9 }, &mut reg), Ok(2));
    assert_eq!(reg.processes.get(&7).unwrap().children, vec![1, 2]);
    assert_eq!(reg.processes.get(&1).unwrap().parent, 7);
}

#[test]
fn fork_refuses_an_id_a_process_holds() {
    let mut reg = Registry::new();
    reg.processes.insert(1, process(1));
    reg.processes.insert(2, process(2));
    let parent = thread(1, 1, 0);
    thread(1, 1, 0).register(&mut reg).unwrap();
    assert_eq!(parent.fork(&frame(3), AddressSpace { page_table: 9 }, &mut reg), Err(Errno::ProcessIdInUse));
    assert_eq!(reg.threads.len(), 1);
    assert_eq!(reg.processes.get(&2).unwrap().process_id, 2);
    assert!(reg.processes.get(&1).unwrap().children.is_empty());
}
