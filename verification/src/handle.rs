use vstd::prelude::*;

verus! {

/// The ownership ledger of one open descriptor.
///
/// A handle owns exactly one OS descriptor and is shareable: `retain`
/// records one more owning reference, `release` gives one back. The
/// descriptor is valid from construction until the last owning reference is
/// gone, and must then be closed exactly once: `release` answers with the
/// descriptor precisely when it removed the last reference — that caller
/// closes it — and a closed ledger accepts no further operation, so no two
/// owners can ever close the same descriptor independently.
#[derive(Clone, Copy, Debug, PartialEq, Eq, Structural)]
pub struct Handle {
    pub fd: i32,
    /// Owning references currently alive.
    pub refs: u64,
    /// Whether the close action has been handed out.
    pub closed: bool,
}

impl Handle {
    /// The ledger's invariant: an open descriptor has at least one owner; a
    /// closed one has none.
    pub open spec fn wf(&self) -> bool {
        if self.closed {
            self.refs == 0
        } else {
            self.refs >= 1
        }
    }

    /// Wraps a freshly opened descriptor: one owning reference, not closed.
    pub fn new(fd: i32) -> (r: Handle)
        ensures
            r.wf(),
            r.fd == fd,
            r.refs == 1,
            !r.closed,
    {
        Handle { fd, refs: 1, closed: false }
    }

    /// The raw descriptor, for privileged operations on the open device.
    pub fn fd(&self) -> (r: i32)
        requires
            !self.closed,
        ensures
            r == self.fd,
    {
        self.fd
    }

    /// Records one more owning reference to the same descriptor.
    pub fn retain(&mut self)
        requires
            old(self).wf(),
            !old(self).closed,
            old(self).refs < u64::MAX,
        ensures
            final(self).wf(),
            final(self).fd == old(self).fd,
            final(self).refs == old(self).refs + 1,
            !final(self).closed,
    {
        self.refs = self.refs + 1;
    }

    /// Gives one owning reference back.
    ///
    /// Answers `Some(fd)` exactly when the last reference was released: the
    /// caller must then close the descriptor, once. Every earlier release
    /// answers `None`, and once closed the ledger admits no further retain
    /// or release — the close action is handed out exactly once.
    pub fn release(&mut self) -> (r: Option<i32>)
        requires
            old(self).wf(),
            !old(self).closed,
        ensures
            final(self).wf(),
            final(self).fd == old(self).fd,
            final(self).refs == old(self).refs - 1,
            old(self).refs == 1 <==> r == Some(old(self).fd),
            old(self).refs == 1 <==> final(self).closed,
            old(self).refs > 1 ==> r is None,
    {
        self.refs = self.refs - 1;
        if self.refs == 0 {
            self.closed = true;
            Some(self.fd)
        } else {
            None
        }
    }
}

} // verus!
