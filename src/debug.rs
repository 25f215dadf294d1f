//! Stack backtraces by frame pointers.
//!
//! The stack is read as untrusted words: every address is checked against the
//! valid stack range, and against the copy of stack memory, before it is read.
use vstd::prelude::*;

verus! {

/// The registers a backtrace starts from.
#[derive(Debug, Clone, Copy, PartialEq, Eq, Structural)]
pub struct Frame {
    pub rip: u64,
    pub rsp: u64,
    pub rbp: u64,
}

/// The addresses from `bottom` to `top`, both included.
#[derive(Debug, Clone, Copy, PartialEq, Eq, Structural)]
pub struct AddrRange {
    pub bottom: u64,
    pub top: u64,
}

impl AddrRange {
    pub open spec fn has(self, a: u64) -> bool {
        self.bottom <= a && a <= self.top
    }

    /// Whether `a` lies in the range.
    pub fn contains(&self, a: u64) -> (r: bool)
        ensures
            r == self.has(a),
    {
        self.bottom <= a && a <= self.top
    }
}

/// A copy of stack memory: word `i` holds the eight bytes at `base + 8 * i`.
pub struct StackImage {
    pub base: u64,
    pub words: Vec<u64>,
}

impl StackImage {
    /// The word stored at `addr`, if the copy holds an aligned word there.
    pub open spec fn word_at(self, addr: u64) -> Option<u64> {
        if self.base <= addr && (addr - self.base) % 8 == 0 && (addr - self.base) / 8 < self.words.len() {
            Some(self.words@[(addr - self.base) / 8])
        } else {
            None
        }
    }

    /// Reads the word at `addr`, or nothing when the copy does not hold it.
    pub fn read_word(&self, addr: u64) -> (r: Option<u64>)
        ensures
            r == self.word_at(addr),
    {
        if addr < self.base {
            return None;
        }
        let off = addr - self.base;
        if off % 8 != 0 {
            return None;
        }
        let idx = off / 8;
        if idx as usize as u64 != idx || idx as usize >= self.words.len() {
            return None;
        }
        Some(self.words[idx as usize])
    }
}

/// Where a backtrace may go: the valid stack range, and the code range that
/// return addresses must lie in.
#[derive(Debug, Clone, Copy, PartialEq, Eq, Structural)]
pub struct UnwindLayout {
    pub stack: AddrRange,
    pub code: AddrRange,
}

/// One printed frame: its number, the call site (return address less one
/// word), and its base pointer.
#[derive(Debug, Clone, Copy, PartialEq, Eq, Structural)]
pub struct StackEntry {
    pub index: u64,
    pub rip: u64,
    pub rbp: u64,
}

/// The outcome of a backtrace.
#[derive(Debug)]
pub enum Backtrace {
    /// The starting base pointer is outside the stack: nothing was read.
    Unavailable { rbp: u64 },
    /// The frames walked, innermost first.
    Frames(Vec<StackEntry>),
}

/// The word at `a + 8`, when that address exists and the copy holds it.
pub open spec fn word_after(img: StackImage, a: u64) -> Option<u64> {
    if a <= u64::MAX - 8 {
        img.word_at((a + 8) as u64)
    } else {
        None
    }
}

/// The call site of return address `ip`: one word before it.
pub open spec fn call_site(ip: u64) -> u64 {
    if ip >= 8 {
        (ip - 8) as u64
    } else {
        0
    }
}

/// The frames printed from return address `ip` and base pointer `bp`, after
/// `cur` frames were printed and `prev_ip` was the last return address seen
/// (none before the first frame, which is always printed).
/// A return address equal to the previous one is not printed again, and the
/// base pointer still advances. The walk stops at `depth` frames, at a return
/// address outside the code range, and at a base pointer outside the stack.
/// Two more stops guard against a corrupted chain:
/// - at a word the copy does not hold, which includes an unaligned base
///   pointer: nothing is read from outside the copy;
/// - at a next base pointer that does not lie above the current one. The stack
///   grows down, so a caller's frame always lies above its callee's; a link
///   that points back to the same frame or below can only come from corrupted
///   memory, and following it could cycle for ever (a frame that links to
///   itself, or two that link to each other, with repeated return addresses
///   that print nothing). Requiring the base pointer to rise is what makes
///   every walk end.
pub open spec fn walk(img: StackImage, lay: UnwindLayout, ip: u64, bp: u64, prev_ip: Option<u64>, cur: nat, depth: nat) -> Seq<StackEntry>
    decreases u64::MAX - bp,
{
    if cur >= depth || !lay.code.has(ip) {
        Seq::empty()
    } else {
        let printed = prev_ip != Some(ip);
        let head = if printed {
            seq![StackEntry { index: cur as u64, rip: call_site(ip), rbp: bp }]
        } else {
            Seq::empty()
        };
        let next_cur = if printed { cur + 1 } else { cur };
        if !lay.stack.has(bp) {
            head
        } else {
            match (word_after(img, bp), img.word_at(bp)) {
                (Some(next_ip), Some(next_bp)) => if next_bp > bp {
                    head + walk(img, lay, next_ip, next_bp, Some(ip), next_cur, depth)
                } else {
                    head
                },
                _ => head,
            }
        }
    }
}

/// The frames printed from base pointer `bp`: the walk starts at the return
/// address saved one word above it, and prints nothing when that word cannot
/// be read.
pub open spec fn trace_from(img: StackImage, lay: UnwindLayout, bp: u64, depth: nat) -> Seq<StackEntry> {
    match word_after(img, bp) {
        Some(ra) => walk(img, lay, ra, bp, None, 0, depth),
        None => Seq::empty(),
    }
}

/// A walk from `cur` printed frames adds at most `depth - cur` more.
pub proof fn lemma_walk_bounded(img: StackImage, lay: UnwindLayout, ip: u64, bp: u64, prev_ip: Option<u64>, cur: nat, depth: nat)
    ensures
        walk(img, lay, ip, bp, prev_ip, cur, depth).len() + cur <= if cur <= depth { depth } else { cur },
    decreases u64::MAX - bp,
{
    if cur >= depth || !lay.code.has(ip) {
    } else {
        let printed = prev_ip != Some(ip);
        let next_cur = if printed { cur + 1 } else { cur };
        if lay.stack.has(bp) {
            match (word_after(img, bp), img.word_at(bp)) {
                (Some(next_ip), Some(next_bp)) => if next_bp > bp {
                    lemma_walk_bounded(img, lay, next_ip, next_bp, Some(ip), next_cur, depth);
                },
                _ => {},
            }
        }
    }
}

/// A frame whose saved base pointer points back at itself, with a return
/// address in the code range, prints exactly one frame, whatever the depth
/// beyond one: the walk does not loop.
pub proof fn lemma_self_linked_frame_prints_one(img: StackImage, lay: UnwindLayout, bp: u64, ra: u64, depth: nat)
    requires
        lay.stack.has(bp),
        img.word_at(bp) == Some(bp),
        word_after(img, bp) == Some(ra),
        lay.code.has(ra),
        depth >= 1,
    ensures
        trace_from(img, lay, bp, depth) == seq![StackEntry { index: 0, rip: call_site(ra), rbp: bp }],
{
    assert(walk(img, lay, ra, bp, None, 0, depth) == seq![StackEntry { index: 0, rip: call_site(ra), rbp: bp }]);
}

impl Frame {
    /// A frame from the three registers read at the point of capture.
    pub fn new(rip: u64, rsp: u64, rbp: u64) -> (r: Self)
        ensures
            r == (Frame { rip, rsp, rbp }),
    {
        Frame { rip, rsp, rbp }
    }

    /// Walks the chain of saved base pointers from this frame, printing at most
    /// `depth` frames. When the base pointer is outside the stack range nothing
    /// is read and the trace is unavailable. Otherwise the walk starts from the
    /// return address saved one word above the base pointer.
    pub fn unwind(&self, depth: usize, img: &StackImage, lay: &UnwindLayout) -> (r: Backtrace)
        ensures
            !lay.stack.has(self.rbp) ==> r == (Backtrace::Unavailable { rbp: self.rbp }),
            lay.stack.has(self.rbp) ==> (r matches Backtrace::Frames(es) && es@ == trace_from(
                *img,
                *lay,
                self.rbp,
                depth as nat,
            )),
            r matches Backtrace::Frames(es) ==> es.len() <= depth,
    {
        let mut bp = self.rbp;
        if !lay.stack.contains(bp) {
            return Backtrace::Unavailable { rbp: self.rbp };
        }
        let mut entries: Vec<StackEntry> = Vec::new();
        if bp > u64::MAX - 8 {
            return Backtrace::Frames(entries);
        }
        let mut ip = match img.read_word(bp + 8) {
            Some(ra) => ra,
            None => return Backtrace::Frames(entries),
        };
        let ghost start = walk(*img, *lay, ip, bp, None, 0, depth as nat);
        proof {
            lemma_walk_bounded(*img, *lay, ip, bp, None, 0, depth as nat);
        }
        let mut prev_ip: Option<u64> = None;
        let mut cur: usize = 0;
        while cur != depth && lay.code.contains(ip)
            invariant
                cur == entries.len(),
                cur <= depth,
                entries@ + walk(*img, *lay, ip, bp, prev_ip, cur as nat, depth as nat) == start,
            ensures
                entries@ == start,
                entries.len() <= depth,
            decreases u64::MAX - bp,
        {
            if prev_ip != Some(ip) {
                let site = if ip >= 8 { ip - 8 } else { 0 };
                entries.push(StackEntry { index: cur as u64, rip: site, rbp: bp });
                prev_ip = Some(ip);
                cur = cur + 1;
            }
            if !lay.stack.contains(bp) {
                assert(entries@ =~= start);
                break;
            }
            let next_ip = if bp <= u64::MAX - 8 { img.read_word(bp + 8) } else { None };
            let next_bp = img.read_word(bp);
            match (next_ip, next_bp) {
                (Some(nip), Some(nbp)) => {
                    if nbp <= bp {
                        assert(entries@ =~= start);
                        break;
                    }
                    assert(entries@ + walk(*img, *lay, nip, nbp, Some(ip), cur as nat, depth as nat) =~= start);
                    ip = nip;
                    bp = nbp;
                },
                _ => {
                    assert(entries@ =~= start);
                    break;
                },
            }
        }
        Backtrace::Frames(entries)
    }
}

} // verus!
