//! The supervisor's state: the running server process and its port.

use vstd::prelude::*;

verus! {

/// Owns the server process handle `P` and the port it announced. The handle
/// leaves exactly once, to be terminated.
pub struct Supervisor<P> {
    process: Option<P>,
    port: u16,
}

impl<P> Supervisor<P> {
    /// The handle, while it has not been taken.
    pub closed spec fn process_spec(&self) -> Option<P> {
        self.process
    }

    /// The announced port.
    pub closed spec fn port_spec(&self) -> u16 {
        self.port
    }

    /// The port of a supervisor is never zero.
    pub open spec fn wf(&self) -> bool {
        self.port_spec() != 0
    }

    /// Starts supervising a launched process that announced `port`.
    pub fn new(process: P, port: u16) -> (r: Supervisor<P>)
        requires
            port != 0,
        ensures
            r.wf(),
            r.process_spec() == Some(process),
            r.port_spec() == port,
    {
        Supervisor { process: Some(process), port }
    }

    /// The server's port.
    pub fn port(&self) -> (r: u16)
        ensures
            r == self.port_spec(),
    {
        self.port
    }

    /// Whether the handle is still held.
    pub fn is_running(&self) -> (r: bool)
        ensures
            r == self.process_spec() is Some,
    {
        self.process.is_some()
    }

    /// Takes the handle for termination; every later call gets `None`.
    pub fn take_process(&mut self) -> (r: Option<P>)
        ensures
            r == old(self).process_spec(),
            final(self).process_spec() is None,
            final(self).port_spec() == old(self).port_spec(),
    {
        self.process.take()
    }
}

} // verus!
