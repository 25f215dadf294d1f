//! System calls on sockets that run atop the execution core.
use vstd::prelude::*;

use crate::context::ThreadContext;
use crate::error::{Errno, KResult};
use crate::net::{listen_target_spec, Endpoint, FileObject, TcpStream};
use crate::thread::{Process, Registry, Thread};

verus! {

broadcast use vstd::std_specs::btree::group_btree_axioms, vstd::laws_cmp::group_laws_cmp;

/// Registers that carry system call arguments.
pub const SYSCALL_REGS_NUM: usize = 6;

/// Address family of local sockets.
pub const AF_UNIX: u16 = 1;
/// Address family of IPv4 sockets.
pub const AF_INET: u16 = 2;

/// A socket address as user memory holds it, already read: the family, and
/// for IPv4 the port and address.
#[derive(Debug, Clone, Copy, PartialEq, Eq, Structural)]
pub struct SockAddr {
    pub sa_family: u16,
    pub port: u16,
    pub ip: u32,
}

/// A listen that the network stack has to start: on socket `socket`, open as
/// descriptor `fd`, at `endpoint`.
#[derive(Debug, Clone, Copy, PartialEq, Eq, Structural)]
pub struct ListenRequest {
    pub fd: u64,
    pub socket: u64,
    pub endpoint: Endpoint,
}

/// The open file `fd` of the process that `thread` belongs to, if both exist.
pub open spec fn file_of(registry: Registry, thread: Thread, fd: u64) -> Option<FileObject> {
    if registry.processes@.contains_key(thread.parent) && registry.processes@[thread.parent].opened_files@.contains_key(fd) {
        Some(registry.processes@[thread.parent].opened_files@[fd])
    } else {
        None
    }
}

/// Reads a thread's user memory.
pub trait UserMemory {
    /// The user addresses read so far, oldest first.
    spec fn reads(&self) -> Seq<u64>;

    /// Reads the socket address at `ptr`; fails when it is not readable.
    fn read_sockaddr(&mut self, ptr: u64) -> (r: KResult<SockAddr>)
        ensures
            final(self).reads() == old(self).reads().push(ptr),
    ;
}

/// `bind(sockfd, addr, addrlen)`: names a socket. The descriptor is the first
/// argument, the user address of the socket address the second; the length is
/// not used. The address is read from `mem` only once the descriptor is known
/// to be an open socket; the rest is `bind_socket`. Fails with `NotFound` when
/// the thread's process is not registered and with `BadDescriptor` when the
/// descriptor is not an open socket, reading nothing; with the read's error
/// when the address cannot be read; else as `bind_socket`.
pub fn sys_bind<M: UserMemory>(
    thread: &Thread,
    ctx: &mut ThreadContext,
    syscall_registers: [u64; 6],
    mem: &mut M,
    registry: &mut Registry,
) -> (r: KResult<usize>)
    ensures
        *final(ctx) == *old(ctx),
        final(registry).threads@ == old(registry).threads@,
        !old(registry).processes@.contains_key(thread.parent) ==> r == Err::<usize, Errno>(Errno::NotFound)
            && final(mem).reads() == old(mem).reads(),
        old(registry).processes@.contains_key(thread.parent) ==> match file_of(*old(registry), *thread, syscall_registers@[0]) {
            Some(FileObject::Socket(_)) => final(mem).reads() == old(mem).reads().push(syscall_registers@[1]),
            _ => r == Err::<usize, Errno>(Errno::BadDescriptor) && final(mem).reads() == old(mem).reads(),
        },
        r is Err ==> final(registry).processes@ == old(registry).processes@,
{
    let sockfd = syscall_registers[0];
    match registry.processes.get(&thread.parent) {
        Some(p) => match p.opened_files.get(&sockfd) {
            Some(FileObject::Socket(_)) => {},
            _ => return Err(Errno::BadDescriptor),
        },
        None => return Err(Errno::NotFound),
    }
    let addr = match mem.read_sockaddr(syscall_registers[1]) {
        Ok(a) => a,
        Err(e) => return Err(e),
    };
    bind_socket(thread, sockfd, addr, registry)
}

/// Binds the socket open as `fd` in the process of `thread` to `addr`, and
/// returns 0. Fails with `NotFound` when the thread's process is not
/// registered, with `BadDescriptor` when the descriptor is not an open socket,
/// with `InvalidArgument` when the address is not IPv4, and as
/// `TcpStream::bind` does; the tables are then unchanged.
pub fn bind_socket(thread: &Thread, fd: u64, addr: SockAddr, registry: &mut Registry) -> (r: KResult<usize>)
    ensures
        final(registry).threads@ == old(registry).threads@,
        !old(registry).processes@.contains_key(thread.parent) ==> r == Err::<usize, Errno>(Errno::NotFound),
        old(registry).processes@.contains_key(thread.parent) ==> match file_of(*old(registry), *thread, fd) {
            Some(FileObject::Socket(s)) => if addr.sa_family != AF_INET || addr.port == 0 {
                r == Err::<usize, Errno>(Errno::InvalidArgument)
            } else {
                let p = old(registry).processes@[thread.parent];
                let q = final(registry).processes@[thread.parent];
                &&& r == Ok::<usize, Errno>(0)
                &&& final(registry).processes@.dom() == old(registry).processes@.dom()
                &&& forall|k: u64| k != thread.parent && old(registry).processes@.contains_key(k)
                    ==> final(registry).processes@[k] == old(registry).processes@[k]
                &&& q.opened_files@ == p.opened_files@.insert(fd, FileObject::Socket(
                    TcpStream {
                        addr: Some(Endpoint { ip: addr.ip, port: addr.port }),
                        state: crate::net::TcpState::Uninit,
                        ..s
                    },
                ))
                &&& q == (Process { opened_files: q.opened_files, ..p })
            },
            _ => r == Err::<usize, Errno>(Errno::BadDescriptor),
        },
        r is Err ==> final(registry).processes@ == old(registry).processes@,
{
    match registry.processes.get(&thread.parent) {
        Some(p) => match p.opened_files.get(&fd) {
            Some(FileObject::Socket(_)) => {},
            _ => return Err(Errno::BadDescriptor),
        },
        None => return Err(Errno::NotFound),
    }
    if addr.sa_family != AF_INET || addr.port == 0 {
        return Err(Errno::InvalidArgument);
    }
    let mut process = match registry.processes.remove(&thread.parent) {
        Some(p) => p,
        None => return Err(Errno::NotFound),
    };
    match process.opened_files.remove(&fd) {
        Some(FileObject::Socket(mut s)) => {
            let _ = s.bind(Endpoint { ip: addr.ip, port: addr.port });
            process.opened_files.insert(fd, FileObject::Socket(s));
        },
        _ => {},
    }
    registry.processes.insert(thread.parent, process);
    Ok(0)
}

/// `listen(sockfd, backlog)`: marks a socket as passive, to accept incoming
/// connections. The descriptor is the first argument; the backlog is not used.
/// Returns the listen the network stack has to start, if any; `finish_listen`
/// records it once started. Fails with `NotFound` when the thread's process is
/// not registered, with `BadDescriptor` when the descriptor is not an open
/// socket, and as `TcpStream::listen_target` does.
pub fn sys_listen(
    thread: &Thread,
    ctx: &mut ThreadContext,
    syscall_registers: [u64; 6],
    registry: &Registry,
) -> (r: KResult<Option<ListenRequest>>)
    ensures
        *final(ctx) == *old(ctx),
        !registry.processes@.contains_key(thread.parent) ==> r == Err::<Option<ListenRequest>, Errno>(
            Errno::NotFound,
        ),
        registry.processes@.contains_key(thread.parent) ==> r == match file_of(*registry, *thread, syscall_registers@[0]) {
            Some(FileObject::Socket(s)) => match listen_target_spec(s) {
                Ok(Some(ep)) => Ok(Some(ListenRequest { fd: syscall_registers@[0], socket: s.socket, endpoint: ep })),
                Ok(None) => Ok(None),
                Err(e) => Err(e),
            },
            _ => Err(Errno::BadDescriptor),
        },
{
    let sockfd = syscall_registers[0];
    let process = match registry.processes.get(&thread.parent) {
        Some(p) => p,
        None => return Err(Errno::NotFound),
    };
    match process.opened_files.get(&sockfd) {
        Some(FileObject::Socket(s)) => match s.listen_target() {
            Ok(Some(ep)) => Ok(Some(ListenRequest { fd: sockfd, socket: s.socket, endpoint: ep })),
            Ok(None) => Ok(None),
            Err(e) => Err(e),
        },
        _ => Err(Errno::BadDescriptor),
    }
}

/// Records that the network stack listens on the socket open as `fd` in the
/// process of `thread`, and returns 0, the result of `listen`. Fails, changing
/// nothing, as `sys_listen` does when there is no such socket.
pub fn finish_listen(thread: &Thread, fd: u64, registry: &mut Registry) -> (r: KResult<usize>)
    ensures
        final(registry).threads@ == old(registry).threads@,
        match file_of(*old(registry), *thread, fd) {
            Some(FileObject::Socket(s)) => {
                let p = old(registry).processes@[thread.parent];
                let q = final(registry).processes@[thread.parent];
                &&& r == Ok::<usize, Errno>(0)
                &&& final(registry).processes@.dom() == old(registry).processes@.dom()
                &&& forall|k: u64| k != thread.parent && old(registry).processes@.contains_key(k)
                    ==> final(registry).processes@[k] == old(registry).processes@[k]
                &&& q.opened_files@ == p.opened_files@.insert(fd, FileObject::Socket(
                    TcpStream { state: crate::net::TcpState::Listening, ..s },
                ))
                &&& q == (Process { opened_files: q.opened_files, ..p })
            },
            Some(_) => r == Err::<usize, Errno>(Errno::BadDescriptor) && final(registry).processes@
                == old(registry).processes@,
            None => r is Err && final(registry).processes@ == old(registry).processes@,
        },
{
    match registry.processes.get(&thread.parent) {
        Some(p) => match p.opened_files.get(&fd) {
            Some(FileObject::Socket(_)) => {},
            _ => return Err(Errno::BadDescriptor),
        },
        None => return Err(Errno::NotFound),
    }
    let mut process = match registry.processes.remove(&thread.parent) {
        Some(p) => p,
        None => return Err(Errno::NotFound),
    };
    match process.opened_files.remove(&fd) {
        Some(FileObject::Socket(mut s)) => {
            s.set_listening();
            process.opened_files.insert(fd, FileObject::Socket(s));
        },
        _ => {},
    }
    registry.processes.insert(thread.parent, process);
    Ok(0)
}

} // verus!
