//! Saved user-mode register state of one thread, and the switch into user mode.
use vstd::prelude::*;

verus! {

/// The general-purpose registers saved when user mode traps into the kernel.
#[derive(Debug, Clone, Copy, PartialEq, Eq, Structural)]
pub struct GeneralRegisters {
    /// Also the register that carries a system call's return value.
    pub rax: u64,
    pub rbx: u64,
    pub rcx: u64,
    pub rdx: u64,
    pub rsi: u64,
    pub rdi: u64,
    pub rbp: u64,
    pub r8: u64,
    pub r9: u64,
    pub r10: u64,
    pub r11: u64,
    pub r12: u64,
    pub r13: u64,
    pub r14: u64,
    pub r15: u64,
    pub rflags: u64,
}

/// A user-mode trap frame: the registers, the trap number and error code, and
/// what the CPU pushes on a trap (instruction pointer, code selector, stack
/// pointer, stack selector).
#[derive(Debug, Clone, Copy, PartialEq, Eq, Structural)]
pub struct Context {
    pub regs: GeneralRegisters,
    /// Why the last switch into user mode came back (system call, fault vector).
    pub trapno: u64,
    pub errcode: u64,
    pub rip: u64,
    pub cs: u64,
    pub rsp: u64,
    pub ss: u64,
}

/// The frame a forked child starts from: the parent's frame with the return
/// value register cleared, so that the child observes 0 from `fork`.
pub open spec fn forked_frame(c: Context) -> Context {
    Context { regs: GeneralRegisters { rax: 0, ..c.regs }, ..c }
}

/// Every general-purpose register zero.
pub open spec fn zero_registers() -> GeneralRegisters {
    GeneralRegisters {
        rax: 0, rbx: 0, rcx: 0, rdx: 0, rsi: 0, rdi: 0, rbp: 0, r8: 0, r9: 0,
        r10: 0, r11: 0, r12: 0, r13: 0, r14: 0, r15: 0, rflags: 0,
    }
}

/// A frame with every field zero.
pub open spec fn zeroed_frame() -> Context {
    Context { regs: zero_registers(), trapno: 0, errcode: 0, rip: 0, cs: 0, rsp: 0, ss: 0 }
}

impl GeneralRegisters {
    /// All registers zero.
    pub fn zeroed() -> (r: Self)
        ensures
            r == zero_registers(),
    {
        GeneralRegisters {
            rax: 0, rbx: 0, rcx: 0, rdx: 0, rsi: 0, rdi: 0, rbp: 0, r8: 0, r9: 0,
            r10: 0, r11: 0, r12: 0, r13: 0, r14: 0, r15: 0, rflags: 0,
        }
    }
}

impl Context {
    /// A frame with every field zero.
    pub fn zeroed() -> (r: Self)
        ensures
            r == zeroed_frame(),
    {
        Context { regs: GeneralRegisters::zeroed(), trapno: 0, errcode: 0, rip: 0, cs: 0, rsp: 0, ss: 0 }
    }

    /// Sets the instruction pointer user mode resumes at.
    pub fn set_rip(&mut self, rip: u64)
        ensures
            *final(self) == (Context { rip, ..*old(self) }),
    {
        self.rip = rip;
    }

    /// Sets the user stack pointer.
    pub fn set_rsp(&mut self, rsp: u64)
        ensures
            *final(self) == (Context { rsp, ..*old(self) }),
    {
        self.rsp = rsp;
    }

    /// The frame a forked child starts from.
    pub fn forked(&self) -> (r: Self)
        ensures
            r == forked_frame(*self),
    {
        let mut c = *self;
        c.regs.rax = 0;
        c
    }
}

/// Floating-point and vector register state, in the 512-byte layout of the
/// `fxsave` instruction (64 little-endian words).
#[derive(Debug, Clone, Copy)]
pub struct FpState {
    pub area: [u64; 64],
}

/// Initial x87 control word: all exceptions masked, extended precision.
pub const FCW_INIT: u64 = 0x037f;
/// Initial SSE control and status register: all exceptions masked.
pub const MXCSR_INIT: u64 = 0x1f80;

/// The state a fresh thread starts with: the x87 control word in the first word,
/// `MXCSR` in the low half of the fourth word, every other byte zero.
pub open spec fn initial_fp_area() -> Seq<u64> {
    Seq::new(64, |i: int| if i == 0 { FCW_INIT } else if i == 3 { MXCSR_INIT } else { 0 })
}

impl FpState {
    /// The floating-point state of a thread that has not run yet.
    pub fn new() -> (r: Self)
        ensures
            r.area@ == initial_fp_area(),
    {
        let mut area = [0u64; 64];
        area[0] = FCW_INIT;
        area[3] = MXCSR_INIT;
        assert(area@ =~= initial_fp_area());
        FpState { area }
    }
}

/// What enters user mode on this CPU. `fxrstor` loads the floating-point
/// registers, `run` transfers control to the saved frame and returns, with the
/// frame updated, when user mode traps back, `fxsave` stores the floating-point
/// registers.
pub trait UserMode {
    /// The contents of this CPU's floating-point registers, in `fxsave` layout.
    spec fn fp_regs(&self) -> Seq<u64>;

    /// The entries into user mode so far, oldest first: the floating-point
    /// registers and the frame that each one started from.
    spec fn runs(&self) -> Seq<(Seq<u64>, Context)>;

    fn fxrstor(&mut self, fp: &FpState)
        ensures
            final(self).fp_regs() == fp.area@,
            final(self).runs() == old(self).runs(),
    ;

    /// User code may leave any field of the frame, and the floating-point
    /// registers, changed.
    fn run(&mut self, ctx: &mut Context)
        ensures
            final(self).runs() == old(self).runs().push((old(self).fp_regs(), *old(ctx))),
    ;

    fn fxsave(&mut self, fp: &mut FpState)
        ensures
            final(fp).area@ == old(self).fp_regs(),
            final(self).fp_regs() == old(self).fp_regs(),
            final(self).runs() == old(self).runs(),
    ;
}

/// The saved state of one thread: its user-mode frame and its floating-point
/// registers.
#[derive(Debug)]
pub struct ThreadContext {
    pub user_context: Box<Context>,
    pub fp_state: Box<FpState>,
}

impl ThreadContext {
    /// A context that resumes at `user_context`, with fresh floating-point state.
    pub fn new(user_context: Context) -> (r: Self)
        ensures
            *r.user_context == user_context,
            r.fp_state.area@ == initial_fp_area(),
    {
        ThreadContext { user_context: Box::new(user_context), fp_state: Box::new(FpState::new()) }
    }

    /// Runs the thread in user mode until it traps back: restores its
    /// floating-point state, enters the saved frame, and saves the
    /// floating-point state again.
    pub fn switch<M: UserMode>(&mut self, cpu: &mut M)
        ensures
            final(cpu).runs() == old(cpu).runs().push((old(self).fp_state.area@, *old(self).user_context)),
            final(self).fp_state.area@ == final(cpu).fp_regs(),
    {
        cpu.fxrstor(&self.fp_state);
        cpu.run(&mut self.user_context);
        cpu.fxsave(&mut self.fp_state);
    }

    /// Why the last switch came back: a system call number or a fault vector.
    pub fn get_trapno(&self) -> (r: usize)
        ensures
            r == self.user_context.trapno as usize,
    {
        self.user_context.trapno as usize
    }

    /// The saved user-mode frame, for a trap handler to read and change.
    pub fn get_user_context(&mut self) -> (r: &mut Box<Context>)
        ensures
            *r == old(self).user_context,
            final(self).user_context == *final(r),
            final(self).fp_state == old(self).fp_state,
    {
        &mut self.user_context
    }
}

} // verus!
