//! Pairs a readable stream with the parent that produced it, so the
//! parent is never forgotten while the stream is in use and is
//! terminated by an explicit cleanup step on every exit path.

use vstd::prelude::*;

verus! {

/// Something owning a child process (or similar resource) that must be
/// terminated and reaped when its output stream is done with.
pub trait ParentTerminator {
    fn terminate(&mut self);
}

/// A stream bundled with its parent. The stream is reached through
/// [`ParentedRead::stream_mut`]; when the reader is finished it calls
/// [`ParentedRead::terminate_parent`] rather than relying on drop
/// order.
pub struct ParentedRead<P: ParentTerminator, R> {
    parent: P,
    stream: R,
}

impl<P: ParentTerminator, R> ParentedRead<P, R> {
    /// The stream half of the pair.
    pub closed spec fn stream_view(self) -> R {
        self.stream
    }

    /// The parent half of the pair.
    pub closed spec fn parent_view(self) -> P {
        self.parent
    }

    /// Bundles a parent with the stream it produced.
    pub fn new(parent: P, stream: R) -> (r: ParentedRead<P, R>)
        ensures
            r.parent_view() == parent,
            r.stream_view() == stream,
    {
        ParentedRead { parent, stream }
    }

    /// Borrows the stream for reading.
    pub fn stream_ref(&self) -> (r: &R)
        ensures
            r == self.stream_view(),
    {
        &self.stream
    }

    /// Borrows the stream mutably for reading.
    pub fn stream_mut(&mut self) -> (r: &mut R)
        ensures
            *r == old(self).stream_view(),
            final(self).stream_view() == *final(r),
            final(self).parent_view() == old(self).parent_view(),
    {
        &mut self.stream
    }

    /// Terminates the parent; the explicit cleanup step every exit
    /// path must run.
    pub fn terminate_parent(&mut self)
        ensures
            final(self).stream_view() == old(self).stream_view(),
    {
        self.parent.terminate();
    }
}

} // verus!
