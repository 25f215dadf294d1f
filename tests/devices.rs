use std::collections::{BTreeMap, VecDeque};

use kthread::context::{Context, ThreadContext};
use kthread::error::Errno;
use kthread::net::{Endpoint, FileObject, Shutdown, TcpState, TcpStream};
use kthread::error::KResult;
use kthread::syscall::{
    bind_socket, finish_listen, sys_bind, sys_listen, ListenRequest, SockAddr, UserMemory, AF_INET, AF_UNIX,
};
use kthread::thread::{AddressSpace, Process, Registry, SigAction, SigStack, Thread, ThreadInner};
use kthread::zero::{PollStatus, ZeroINode};

#[test]
fn zero_inodes_are_numbered_from_the_counter() {
    let mut counter = 5u64;
    assert_eq!(ZeroINode::new(&mut counter).id, 5);
    assert_eq!(ZeroINode::new(&mut counter).id, 6);
    assert_eq!(counter, 7);
    let mut top = u64::MAX;
    assert_eq!(ZeroINode::new(&mut top).id, u64::MAX);
    assert_eq!(top, 0);
}

#[test]
fn zero_reads_zeros_and_drops_writes() {
    let z = ZeroINode { id: 1 };
    let mut buf = [9u8; 12];
    assert_eq!(z.read_at(100, &mut buf), 12);
    assert_eq!(buf, [0u8; 12]);
    let mut empty: [u8; 0] = [];
    assert_eq!(z.read_at(0, &mut empty), 0);
    assert_eq!(z.write_at(0, &[1, 2, 3]), 0);
    assert_eq!(z.poll(), PollStatus { read: true, write: false, error: false });
}

fn ep(port: u16) -> Endpoint {
    Endpoint { ip: 0x0a00_0002, port }
}

#[test]
fn tcp_bind_needs_a_port() {
    let mut s = TcpStream::new(4);
    assert_eq!(s.state(), TcpState::Uninit);
    assert_eq!(s.bind(ep(0)), Err(Errno::InvalidArgument));
    assert_eq!(s.addr, None);
    assert_eq!(s.bind(ep(80)), Ok(()));
    assert_eq!(s.addr, Some(ep(80)));
}

#[test]
fn tcp_listen_rules() {
    let mut s = TcpStream::new(4);
    assert_eq!(s.listen_target(), Err(Errno::InvalidArgument));
    s.bind(ep(80)).unwrap();
    assert_eq!(s.listen_target(), Ok(Some(ep(80))));
    s.set_listening();
    assert_eq!(s.state(), TcpState::Listening);
    assert_eq!(s.listen_target(), Ok(None));
    s.state = TcpState::Alive;
    assert_eq!(s.listen_target(), Ok(None));
    s.state = TcpState::Closing(Shutdown::Both);
    assert_eq!(s.listen_target(), Err(Errno::InvalidArgument));
    s.state = TcpState::Dead;
    assert_eq!(s.listen_target(), Err(Errno::InvalidArgument));
}

fn setup() -> (Registry, Thread) {
    let mut files = BTreeMap::new();
    let mut sock = TcpStream::new(11);
    sock.bind(ep(8080)).unwrap();
    files.insert(3, FileObject::Socket(sock));
    files.insert(4, FileObject::Inode(2));
    let mut reg = Registry::new();
    reg.processes.insert(
        1,
        Process {
            process_id: 1,
            process_group_id: 1,
            threads: vec![1],
            vm: AddressSpace { page_table: 1 },
            exec_path: String::new(),
            pwd: "/".to_string(),
            opened_files: files,
            exit_code: 0,
            pending_sigset: 0,
            sig_queue: VecDeque::new(),
            futexes: BTreeMap::new(),
            actions: [SigAction { handler: 0, flags: 0, mask: 0 }; 65],
            parent: 0,
            children: vec![],
        },
    );
    let t = Thread {
        id: 1,
        parent: 1,
        inner: ThreadInner { sigmask: 0, thread_context: None, sigaltstack: SigStack { sp: 0, flags: 0, size: 0 } },
        vm: AddressSpace { page_table: 1 },
    };
    (reg, t)
}

#[test]
fn listen_syscall_asks_then_records() {
    let (mut reg, t) = setup();
    let mut ctx = ThreadContext::new(Context::zeroed());
    let req = sys_listen(&t, &mut ctx, [3, 0, 0, 0, 0, 0], &reg).unwrap();
    assert_eq!(req, Some(ListenRequest { fd: 3, socket: 11, endpoint: ep(8080) }));
    assert_eq!(finish_listen(&t, 3, &mut reg), Ok(0));
    match reg.processes.get(&1).unwrap().opened_files.get(&3) {
        Some(FileObject::Socket(s)) => assert_eq!(s.state, TcpState::Listening),
        other => panic!("{:?}", other),
    }
    assert_eq!(sys_listen(&t, &mut ctx, [3, 0, 0, 0, 0, 0], &reg), Ok(None));
}

#[test]
fn listen_syscall_errors() {
    let (mut reg, t) = setup();
    let mut ctx = ThreadContext::new(Context::zeroed());
    assert_eq!(sys_listen(&t, &mut ctx, [4, 0, 0, 0, 0, 0], &reg), Err(Errno::BadDescriptor));
    assert_eq!(sys_listen(&t, &mut ctx, [9, 0, 0, 0, 0, 0], &reg), Err(Errno::BadDescriptor));
    assert_eq!(finish_listen(&t, 4, &mut reg), Err(Errno::BadDescriptor));
    let orphan = Thread { parent: 2, ..t };
    assert_eq!(sys_listen(&orphan, &mut ctx, [3, 0, 0, 0, 0, 0], &reg), Err(Errno::NotFound));
    assert_eq!(finish_listen(&orphan, 3, &mut reg), Err(Errno::NotFound));
}

struct FakeMemory {
    addr: Option<SockAddr>,
    read_at: Vec<u64>,
}

impl UserMemory for FakeMemory {
    fn reads(&self) -> vstd::seq::Seq<u64> {
        panic!("model only")
    }

    fn read_sockaddr(&mut self, ptr: u64) -> KResult<SockAddr> {
        self.read_at.push(ptr);
        self.addr.ok_or(Errno::InvalidArgument)
    }
}

fn memory(addr: SockAddr) -> FakeMemory {
    FakeMemory { addr: Some(addr), read_at: vec![] }
}

#[test]
fn bind_syscall_names_the_socket() {
    let (mut reg, t) = setup();
    let mut ctx = ThreadContext::new(Context::zeroed());
    let mut mem = memory(SockAddr { sa_family: AF_INET, port: 9000, ip: 0x7f00_0001 });
    assert_eq!(sys_bind(&t, &mut ctx, [3, 0x1000, 16, 0, 0, 0], &mut mem, &mut reg), Ok(0));
    assert_eq!(mem.read_at, vec![0x1000]);
    match reg.processes.get(&1).unwrap().opened_files.get(&3) {
        Some(FileObject::Socket(s)) => {
            assert_eq!(s.addr, Some(Endpoint { ip: 0x7f00_0001, port: 9000 }));
            assert_eq!(s.socket, 11);
        }
        other => panic!("{:?}", other),
    }
}

#[test]
fn bind_syscall_reads_nothing_for_a_bad_descriptor() {
    let (mut reg, t) = setup();
    let mut ctx = ThreadContext::new(Context::zeroed());
    let mut mem = memory(SockAddr { sa_family: AF_INET, port: 9000, ip: 1 });
    assert_eq!(sys_bind(&t, &mut ctx, [4, 0x1000, 16, 0, 0, 0], &mut mem, &mut reg), Err(Errno::BadDescriptor));
    assert_eq!(sys_bind(&t, &mut ctx, [8, 0x1000, 16, 0, 0, 0], &mut mem, &mut reg), Err(Errno::BadDescriptor));
    let orphan = Thread { parent: 5, ..t };
    assert_eq!(sys_bind(&orphan, &mut ctx, [3, 0x1000, 16, 0, 0, 0], &mut mem, &mut reg), Err(Errno::NotFound));
    assert!(mem.read_at.is_empty());
    let mut unreadable = FakeMemory { addr: None, read_at: vec![] };
    let t2 = Thread { parent: 1, ..orphan };
    assert_eq!(sys_bind(&t2, &mut ctx, [3, 0x2000, 16, 0, 0, 0], &mut unreadable, &mut reg), Err(Errno::InvalidArgument));
    assert_eq!(unreadable.read_at, vec![0x2000]);
}

#[test]
fn bind_syscall_errors() {
    let (mut reg, t) = setup();
    let good = SockAddr { sa_family: AF_INET, port: 9000, ip: 1 };
    let unix = SockAddr { sa_family: AF_UNIX, port: 9000, ip: 1 };
    let no_port = SockAddr { sa_family: AF_INET, port: 0, ip: 1 };
    assert_eq!(bind_socket(&t, 3, unix, &mut reg), Err(Errno::InvalidArgument));
    assert_eq!(bind_socket(&t, 3, no_port, &mut reg), Err(Errno::InvalidArgument));
    assert_eq!(bind_socket(&t, 4, good, &mut reg), Err(Errno::BadDescriptor));
    assert_eq!(bind_socket(&t, 8, good, &mut reg), Err(Errno::BadDescriptor));
    let orphan = Thread { parent: 5, ..t };
    assert_eq!(bind_socket(&orphan, 3, good, &mut reg), Err(Errno::NotFound));
    match reg.processes.get(&1).unwrap().opened_files.get(&3) {
        Some(FileObject::Socket(s)) => assert_eq!(s.addr, Some(ep(8080))),
        other => panic!("{:?}", other),
    }
}
