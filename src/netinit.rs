use vstd::prelude::*;
use crate::duration::Duration;

verus! {

/// Where bringing the network up stands, once per process.
#[derive(Clone, Copy, Debug, PartialEq, Eq, Structural, Hash)]
pub enum NetState {
    Uninitialized,
    /// The request is submitted and the network service holds it.
    Requesting,
    Ready,
}

/// The decisions of network bring-up. The caller initialises the network
/// service and submits the request when `start` says so, then asks the
/// service whether the request is on hold and hands the answer to `poll`
/// until it reports ready. There is no timeout: a request held forever is
/// waited on forever.
pub struct NetworkInit {
    state: NetState,
}

impl NetworkInit {
    pub closed spec fn state(self) -> NetState {
        self.state
    }

    pub fn new() -> (r: NetworkInit)
        ensures
            r.state() == NetState::Uninitialized,
    {
        NetworkInit { state: NetState::Uninitialized }
    }

    pub fn is_ready(&self) -> (r: bool)
        ensures
            r == (self.state() == NetState::Ready),
    {
        self.state == NetState::Ready
    }

    /// Whether the caller must now initialise the service and submit the
    /// request: only the first time. Starting again while requesting or
    /// ready changes nothing.
    pub fn start(&mut self) -> (r: bool)
        ensures
            r == (old(self).state() == NetState::Uninitialized),
            r ==> final(self).state() == NetState::Requesting,
            !r ==> final(self).state() == old(self).state(),
    {
        if self.state == NetState::Uninitialized {
            self.state = NetState::Requesting;
            true
        } else {
            false
        }
    }

    /// What to do after the service said whether the request is on hold:
    /// sleep for the returned span and ask again, or, with `None`, stop, the
    /// network being up.
    pub fn poll(&mut self, on_hold: bool) -> (r: Option<Duration>)
        requires
            old(self).state() == NetState::Requesting,
        ensures
            on_hold ==> final(self).state() == NetState::Requesting && (r matches Some(d) && d@
                == 1_000_000_000),
            !on_hold ==> final(self).state() == NetState::Ready && r is None,
    {
        if on_hold {
            Some(Duration::from_secs(1))
        } else {
            self.state = NetState::Ready;
            None
        }
    }
}

} // verus!
