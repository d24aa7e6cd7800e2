//! A relay that forwards a local websocket client to a remote server.
use vstd::prelude::*;
use vstd::string::StringExecFns;

verus! {

/// Where a repeater listens, and where it forwards to.
pub struct ButtplugRepeater {
    local_port: u16,
    remote_address: String,
}

impl ButtplugRepeater {
    pub closed spec fn spec_local_port(&self) -> u16 {
        self.local_port
    }

    pub closed spec fn spec_remote_address(&self) -> Seq<char> {
        self.remote_address@
    }

    pub fn new(local_port: u16, remote_address: &str) -> (r: ButtplugRepeater)
        ensures
            r.spec_local_port() == local_port,
            r.spec_remote_address() == remote_address@,
    {
        ButtplugRepeater { local_port, remote_address: String::from_str(remote_address) }
    }

    /// The loopback port on which clients connect.
    pub fn local_port(&self) -> (r: u16)
        ensures
            r == self.spec_local_port(),
    {
        self.local_port
    }

    /// The address of the server that clients are forwarded to.
    pub fn remote_address(&self) -> (r: &String)
        ensures
            r@ == self.spec_remote_address(),
    {
        &self.remote_address
    }
}

} // verus!
