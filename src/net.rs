//! Sockets as the process file table holds them, and the state rules of a TCP
//! socket.
use vstd::prelude::*;

use crate::error::{Errno, KResult};

verus! {

/// Which halves of a connection are shut down.
#[derive(Debug, Clone, Copy, PartialEq, Eq, Structural)]
pub enum Shutdown {
    Read,
    Write,
    Both,
}

/// The state of a TCP connection.
#[derive(Debug, Clone, Copy, PartialEq, Eq, Structural)]
pub enum TcpState {
    /// Created, not listening or connected yet.
    Uninit,
    /// Waiting for a peer.
    Listening,
    /// Connected.
    Alive,
    /// Closing; the option says whether reads or writes can still be handled.
    Closing(Shutdown),
    /// Closed, waiting to be cleaned up.
    Dead,
}

/// An IPv4 socket address.
#[derive(Debug, Clone, Copy, PartialEq, Eq, Structural)]
pub struct Endpoint {
    /// The address, most significant octet first.
    pub ip: u32,
    pub port: u16,
}

/// A TCP socket: the handle of its network-stack socket, its local address once
/// bound, and its state.
#[derive(Debug, Clone, Copy, PartialEq, Eq, Structural)]
pub struct TcpStream {
    pub socket: u64,
    pub addr: Option<Endpoint>,
    pub state: TcpState,
}

/// An open file of a process.
#[derive(Debug, Clone, Copy, PartialEq, Eq, Structural)]
pub enum FileObject {
    Socket(TcpStream),
    /// A file-system object, by inode number.
    Inode(u64),
}

/// What `listen` on socket `s` asks of the network stack: nothing more for a
/// connected or listening socket, to listen on its address for an unconnected
/// bound one; closing or closed sockets, and unbound ones, are refused.
pub open spec fn listen_target_spec(s: TcpStream) -> KResult<Option<Endpoint>> {
    match s.state {
        TcpState::Dead | TcpState::Closing(_) => Err(Errno::InvalidArgument),
        TcpState::Alive | TcpState::Listening => Ok(None),
        TcpState::Uninit => match s.addr {
            Some(a) => Ok(Some(a)),
            None => Err(Errno::InvalidArgument),
        },
    }
}

impl TcpStream {
    /// A socket over network-stack socket `socket`, unbound and unconnected.
    pub fn new(socket: u64) -> (r: Self)
        ensures
            r == (TcpStream { socket, addr: None, state: TcpState::Uninit }),
    {
        TcpStream { socket, addr: None, state: TcpState::Uninit }
    }

    pub fn state(&self) -> (r: TcpState)
        ensures
            r == self.state,
    {
        self.state
    }

    /// Binds the socket to `addr`. Fails with `InvalidArgument`, changing
    /// nothing, when no port is given.
    pub fn bind(&mut self, addr: Endpoint) -> (r: KResult<()>)
        ensures
            addr.port == 0 ==> r == Err::<(), Errno>(Errno::InvalidArgument) && *final(self) == *old(self),
            addr.port != 0 ==> r == Ok::<(), Errno>(()) && *final(self) == (TcpStream {
                addr: Some(addr),
                state: TcpState::Uninit,
                ..*old(self)
            }),
    {
        if addr.port == 0 {
            return Err(Errno::InvalidArgument);
        }
        self.addr = Some(addr);
        self.state = TcpState::Uninit;
        Ok(())
    }

    /// What listening asks of the network stack; see `listen_target_spec`.
    pub fn listen_target(&self) -> (r: KResult<Option<Endpoint>>)
        ensures
            r == listen_target_spec(*self),
    {
        match self.state {
            TcpState::Dead | TcpState::Closing(_) => Err(Errno::InvalidArgument),
            TcpState::Alive | TcpState::Listening => Ok(None),
            TcpState::Uninit => match self.addr {
                Some(a) => Ok(Some(a)),
                None => Err(Errno::InvalidArgument),
            },
        }
    }

    /// Records that the network stack now listens on the socket's address.
    pub fn set_listening(&mut self)
        ensures
            *final(self) == (TcpStream { state: TcpState::Listening, ..*old(self) }),
    {
        self.state = TcpState::Listening;
    }
}

} // verus!
