//! The supervision state shared by the supervisor and the discovery task:
//! the cached peer identity and the guard against concurrent discoveries.
//! The host keeps it behind a lock taken for one call at a time.

use vstd::prelude::*;

verus! {

pub struct PeerState {
    peer_info: Option<String>,
    fetching: bool,
}

/// The cached identity as text.
pub open spec fn info_view(info: Option<String>) -> Option<Seq<char>> {
    match info {
        Some(s) => Some(s@),
        None => None,
    }
}

/// A discovery may begin: nothing is cached and none is in flight.
pub open spec fn may_begin(cached: Option<Seq<char>>, fetching: bool) -> bool {
    cached is None && !fetching
}

impl PeerState {
    pub closed spec fn cached(&self) -> Option<Seq<char>> {
        info_view(self.peer_info)
    }

    pub closed spec fn in_flight(&self) -> bool {
        self.fetching
    }

    /// No identity cached, no discovery in flight.
    pub fn new() -> (r: PeerState)
        ensures
            r.cached() is None,
            !r.in_flight(),
    {
        PeerState { peer_info: None, fetching: false }
    }

    /// A new daemon instance started: forget the identity of the last one.
    pub fn reset_for_new_instance(&mut self)
        ensures
            final(self).cached() is None,
            !final(self).in_flight(),
    {
        self.peer_info = None;
        self.fetching = false;
    }

    /// The entry guard of a discovery: it may begin only when nothing is
    /// cached and no other discovery is in flight; it then marks itself in
    /// flight. A refused call changes nothing.
    pub fn try_begin_discovery(&mut self) -> (r: bool)
        ensures
            r == may_begin(old(self).cached(), old(self).in_flight()),
            final(self).cached() == old(self).cached(),
            r ==> final(self).in_flight(),
            !r ==> final(self).in_flight() == old(self).in_flight(),
    {
        if self.peer_info.is_some() || self.fetching {
            false
        } else {
            self.fetching = true;
            true
        }
    }

    /// Caches a discovered identity. One that is already cached stays until
    /// the next instance starts.
    pub fn store_peer_info(&mut self, info: String)
        ensures
            old(self).cached() is None ==> final(self).cached() == Some(info@),
            old(self).cached() is Some ==> final(self).cached() == old(self).cached(),
            final(self).in_flight() == old(self).in_flight(),
    {
        if self.peer_info.is_none() {
            self.peer_info = Some(info);
        }
    }

    /// The discovery in flight ended, however it ended.
    pub fn end_discovery(&mut self)
        ensures
            final(self).cached() == old(self).cached(),
            !final(self).in_flight(),
    {
        self.fetching = false;
    }

    /// The cached identity, if any; changes nothing.
    pub fn get_peer_info(&self) -> (r: Option<String>)
        ensures
            info_view(r) == self.cached(),
    {
        match &self.peer_info {
            Some(s) => Some(s.clone()),
            None => None,
        }
    }

    /// Whether a discovery is in flight.
    pub fn is_fetching(&self) -> (r: bool)
        ensures
            r == self.in_flight(),
    {
        self.fetching
    }
}

/// Two discoveries never run at once: while one is in flight, the guard
/// refuses every other, whatever is cached.
pub proof fn lemma_guard_excludes_second()
    ensures
        forall|c: Option<Seq<char>>| !may_begin(c, true),
{
}

} // verus!
