//! Ports a container publishes on its host.

use vstd::prelude::*;

verus! {

/// Transport protocol of a published port.
#[derive(Clone, Copy, Debug, PartialEq, Eq, Structural)]
pub enum Protocol {
    Tcp,
    Udp,
}

impl Protocol {
    /// The protocol as the engine spells it.
    pub open spec fn wire_name(self) -> Seq<char> {
        match self {
            Protocol::Tcp => "tcp"@,
            Protocol::Udp => "udp"@,
        }
    }

    /// The engine's spelling: `"tcp"` or `"udp"`.
    pub fn as_ref(&self) -> (name: &'static str)
        ensures
            name@ == self.wire_name(),
    {
        match self {
            Protocol::Tcp => "tcp",
            Protocol::Udp => "udp",
        }
    }
}

/// One port mapping: the container's `source` port is published on the
/// host's `host` port.
#[derive(Clone, Copy, Debug, PartialEq, Eq, Structural)]
pub struct Port {
    pub source: u32,
    pub host: u32,
    pub protocol: Protocol,
}

} // verus!
