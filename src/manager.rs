use vstd::prelude::*;

verus! {

/// The slot for the one session that plays at a time, holding the handle
/// through which that session is told to stop.
pub struct Manager<H> {
    sender: Option<H>,
}

impl<H> Manager<H> {
    /// Handle of the session that is playing, if any.
    pub closed spec fn spec_sender(&self) -> Option<H> {
        self.sender
    }

    /// A slot with no session.
    pub fn new() -> (r: Manager<H>)
        ensures
            r.spec_sender() is None,
    {
        Manager { sender: None }
    }

    /// Records `sender` as the handle of the session that now plays, and
    /// hands back the handle of the one that played before, which the caller
    /// must stop so that no session is left running unreachable.
    pub fn start_playing(&mut self, sender: H) -> (previous: Option<H>)
        ensures
            previous == old(self).spec_sender(),
            final(self).spec_sender() == Some(sender),
    {
        let previous = self.sender.take();
        self.sender = Some(sender);
        previous
    }

    /// Hands back the handle of the session that plays, for the caller to
    /// signal it to stop; afterwards no session is held.
    pub fn stop_playing(&mut self) -> (r: Option<H>)
        ensures
            r == old(self).spec_sender(),
            final(self).spec_sender() is None,
    {
        self.sender.take()
    }

    /// Whether a session is held.
    pub fn is_playing(&self) -> (r: bool)
        ensures
            r == self.spec_sender() is Some,
    {
        self.sender.is_some()
    }
}

} // verus!
