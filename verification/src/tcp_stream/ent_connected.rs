//! Yaoi TcpStream connected entity.

use vstd::prelude::*;

verus! {

/// A peer socket address, as plain values.
#[derive(Clone, Copy, Debug, PartialEq, Eq)]
#[allow(inconsistent_fields)]
pub enum PeerAddr {
    /// IPv4 address and port.
    V4 { ip: [u8; 4], port: u16 },
    /// IPv6 address, port, flow info and scope id.
    V6 { ip: [u8; 16], port: u16, flowinfo: u32, scope_id: u32 },
}

/// A connected entity.
#[derive(Debug)]
pub struct EntConnected {
    raw_fd: Option<i32>,
    fixed_fd: Option<u32>,
    peer_addr: Option<PeerAddr>,
}

impl EntConnected {
    /// The regular filehandle, if any.
    pub closed spec fn raw(&self) -> Option<i32> {
        self.raw_fd
    }

    /// The fixed filehandle, if any.
    pub closed spec fn fixed(&self) -> Option<u32> {
        self.fixed_fd
    }

    /// The peer address, if known.
    pub closed spec fn peer(&self) -> Option<PeerAddr> {
        self.peer_addr
    }

    /// Connected entity over a fixed filehandle; `f_fd` must be a valid fixed filehandle.
    pub fn from_fixed(f_fd: u32) -> (r: Self)
        ensures
            r.raw() == None::<i32>,
            r.fixed() == Some(f_fd),
            r.peer() == None::<PeerAddr>,
    {
        Self { raw_fd: None, fixed_fd: Some(f_fd), peer_addr: None }
    }

    /// With a known peer address.
    pub fn and_peer_addr(self, addr: PeerAddr) -> (r: Self)
        ensures
            r.raw() == self.raw(),
            r.fixed() == self.fixed(),
            r.peer() == Some(addr),
    {
        let mut s = self;
        s.peer_addr = Some(addr);
        s
    }

    /// The fixed filehandle, if any.
    pub fn fixed_fd(&self) -> (r: Option<u32>)
        ensures
            r == self.fixed(),
    {
        self.fixed_fd
    }
}

} // verus!
