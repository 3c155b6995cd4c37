//! The three calling conventions.

use vstd::prelude::*;

verus! {

/// The convention under which a request is sent and its replies are read.
#[derive(Clone, Copy, Debug, PartialEq, Eq, Structural)]
pub enum CallKind {
    /// One request, exactly one reply.
    Sync,
    /// One request, exactly one reply. Differs from `Sync` in its wire tag only.
    Async,
    /// One request, any number of replies, closed by an end-of-stream signal.
    Source,
}

impl CallKind {
    /// Whether the convention ends with its first reply.
    pub open spec fn single_reply(self) -> bool {
        self != CallKind::Source
    }

    /// The tag under which the convention goes over the wire.
    pub open spec fn tag(self) -> Seq<char> {
        match self {
            CallKind::Sync => "sync"@,
            CallKind::Async => "async"@,
            CallKind::Source => "source"@,
        }
    }

    /// Whether the convention ends with its first reply.
    pub fn is_single_reply(&self) -> (r: bool)
        ensures
            r == self.single_reply(),
    {
        match self {
            CallKind::Sync => true,
            CallKind::Async => true,
            CallKind::Source => false,
        }
    }

    /// The tag under which the convention goes over the wire.
    pub fn wire_tag(&self) -> (r: &'static str)
        ensures
            r@ == self.tag(),
    {
        match self {
            CallKind::Sync => "sync",
            CallKind::Async => "async",
            CallKind::Source => "source",
        }
    }
}

} // verus!
