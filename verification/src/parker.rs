use vstd::prelude::*;

verus! {

/// The wake-up token shared by a blocked thread and the wakers that may
/// resume it. `park` consumes the token, `unpark` makes it available.
pub struct Parker {
    resumable: bool,
}

/// One step of `park` from a state: whether the thread may go on, and the
/// state afterwards. The token, if present, is consumed.
pub open spec fn park_step(resumable: bool) -> (bool, bool) {
    (resumable, false)
}

impl View for Parker {
    type V = bool;

    closed spec fn view(&self) -> bool {
        self.resumable
    }
}

impl Parker {
    /// A parker without a token: the first `park` has to wait.
    pub fn new() -> (p: Parker)
        ensures
            !p@,
    {
        Parker { resumable: false }
    }

    /// Makes the token available, so that a thread blocked in `park`, or the
    /// next one to call it, may go on.
    pub fn unpark(&mut self)
        ensures
            final(self)@,
    {
        self.resumable = true;
    }

    /// Tries to pass the parking point: returns `true` and consumes the token
    /// when one is available; returns `false` when the caller must wait for an
    /// `unpark` and try again.
    pub fn park(&mut self) -> (resumed: bool)
        ensures
            (resumed, final(self)@) == park_step(old(self)@),
    {
        if self.resumable {
            self.resumable = false;
            true
        } else {
            false
        }
    }
}

impl Default for Parker {
    fn default() -> (p: Parker)
        ensures
            !p@,
    {
        Parker::new()
    }
}

/// A park that follows an unpark (which leaves the token available,
/// whatever the state before) goes on.
pub proof fn lemma_unpark_then_park_resumes()
    ensures
        park_step(true).0,
{
}

/// A token is used once: right after a park, the next park waits.
pub proof fn lemma_park_consumes_token(state: bool)
    ensures
        !park_step(park_step(state).1).0,
{
}

/// A fresh parker waits on its first park.
pub proof fn lemma_fresh_parker_waits()
    ensures
        !park_step(false).0,
{
}

} // verus!
