//! The session store: a registry of agent sessions keyed by their
//! caller-supplied ids, created on demand and kept for the process's
//! lifetime. Concurrent access is the caller's concern; the store itself
//! is plain state behind whatever lock the caller puts around it.

use vstd::prelude::*;
use vstd::string::*;
use crate::session::{AgentSession, default_capability_names};
use crate::text::{str_eq, views_of};

verus! {

/// The registry of live agent sessions; ids are unique.
pub struct SessionStore {
    pub sessions: Vec<AgentSession>,
}

impl SessionStore {
    /// Ids are pairwise distinct.
    pub open spec fn wf(&self) -> bool {
        forall|i: int, j: int|
            0 <= i < j < self.sessions@.len() ==> self.sessions@[i].id@ != self.sessions@[j].id@
    }

    /// Some session carries this id.
    pub open spec fn has_id(&self, id: Seq<char>) -> bool {
        exists|k: int| 0 <= k < self.sessions@.len() && self.sessions@[k].id@ == id
    }

    /// An empty store.
    pub fn new() -> (r: SessionStore)
        ensures
            r.wf(),
            r.sessions@.len() == 0,
    {
        SessionStore { sessions: Vec::new() }
    }

    /// The index of the session with this id, if one lives here.
    pub fn find(&self, id: &str) -> (r: Option<usize>)
        ensures
            match r {
                Some(i) => i < self.sessions@.len() && self.sessions@[i as int].id@ == id@,
                None => !self.has_id(id@),
            },
    {
        let n = self.sessions.len();
        let mut i: usize = 0;
        while i < n
            invariant
                n == self.sessions@.len(),
                i <= n,
                forall|k: int| 0 <= k < i ==> self.sessions@[k].id@ != id@,
            decreases n - i,
        {
            if str_eq(self.sessions[i].id.as_str(), id) {
                return Some(i);
            }
            i += 1;
        }
        None
    }

    /// A shared view of the session with this id, or nothing: the
    /// lookup that reports "not found" to the caller.
    pub fn get(&self, id: &str) -> (r: Option<&AgentSession>)
        ensures
            match r {
                Some(s) => self.has_id(id@) && s.id@ == id@,
                None => !self.has_id(id@),
            },
    {
        match self.find(id) {
            Some(i) => Some(&self.sessions[i]),
            None => None,
        }
    }

    /// The index of the session with this id, creating it first when
    /// absent: a fresh session starts active, with an empty audit log,
    /// the given working directory and the default capability list.
    /// An existing session, and every other session, is left untouched.
    pub fn get_or_create(&mut self, id: &str, default_directory: &str) -> (i: usize)
        requires
            old(self).wf(),
        ensures
            final(self).wf(),
            i < final(self).sessions@.len(),
            final(self).sessions@[i as int].id@ == id@,
            old(self).has_id(id@) ==> *final(self) == *old(self),
            !old(self).has_id(id@) ==> {
                &&& i == old(self).sessions@.len()
                &&& final(self).sessions@.len() == old(self).sessions@.len() + 1
                &&& final(self).sessions@.take(i as int) == old(self).sessions@
                &&& final(self).sessions@[i as int].active
                &&& final(self).sessions@[i as int].actions@.len() == 0
                &&& final(self).sessions@[i as int].current_directory@ == default_directory@
                &&& views_of(final(self).sessions@[i as int].capabilities@)
                    == default_capability_names()
            },
    {
        match self.find(id) {
            Some(i) => i,
            None => {
                let fresh = AgentSession::new(
                    String::from_str(id),
                    String::from_str(default_directory),
                );
                let i = self.sessions.len();
                self.sessions.push(fresh);
                proof {
                    assert(self.sessions@.take(i as int) =~= old(self).sessions@);
                }
                i
            },
        }
    }
}

} // verus!
