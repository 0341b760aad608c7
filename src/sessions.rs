use vstd::prelude::*;
use crate::error::RosenpassError;

verus! {

/// The session identifiers of the attempts in flight, each held once.
pub struct SessionTable {
    pub sids: Vec<u32>,
}

impl SessionTable {
    pub open spec fn wf(&self) -> bool {
        self.sids@.no_duplicates()
    }

    /// Whether an attempt under `sid` is tracked.
    pub open spec fn tracks(&self, sid: u32) -> bool {
        self.sids@.contains(sid)
    }

    pub fn new() -> (r: Self)
        ensures
            r.wf(),
            forall|s: u32| !r.tracks(s),
    {
        SessionTable { sids: Vec::new() }
    }

    pub fn contains(&self, sid: u32) -> (r: bool)
        ensures
            r == self.tracks(sid),
    {
        let mut i: usize = 0;
        while i < self.sids.len()
            invariant
                i <= self.sids@.len(),
                forall|k: int| 0 <= k < i ==> self.sids@[k] != sid,
            decreases self.sids@.len() - i,
        {
            if self.sids[i] == sid {
                return true;
            }
            i += 1;
        }
        false
    }

    /// Starts tracking `sid`; tracking it twice keeps one entry.
    pub fn insert(&mut self, sid: u32)
        requires
            old(self).wf(),
        ensures
            final(self).wf(),
            forall|s: u32| #[trigger] final(self).tracks(s) == (old(self).tracks(s) || s == sid),
    {
        if !self.contains(sid) {
            self.sids.push(sid);
            assert forall|s: u32| #[trigger] self.tracks(s) == (old(self).tracks(s) || s == sid) by {
                if s != sid && self.tracks(s) {
                    let k = choose|k: int| 0 <= k < self.sids@.len() && self.sids@[k] == s;
                    assert(k < old(self).sids@.len());
                    assert(old(self).sids@[k] == s);
                }
                if old(self).tracks(s) {
                    let k = choose|k: int| 0 <= k < old(self).sids@.len() && old(self).sids@[k] == s;
                    assert(self.sids@[k] == s);
                }
                if s == sid {
                    assert(self.sids@[self.sids@.len() - 1] == s);
                }
            }
        }
    }

    /// Stops tracking `sid`, once its attempt completed or was torn down.
    pub fn remove(&mut self, sid: u32)
        requires
            old(self).wf(),
        ensures
            final(self).wf(),
            forall|s: u32| #[trigger] final(self).tracks(s) == (old(self).tracks(s) && s != sid),
    {
        let mut kept: Vec<u32> = Vec::new();
        let mut i: usize = 0;
        while i < self.sids.len()
            invariant
                i <= self.sids@.len(),
                self.sids@ == old(self).sids@,
                old(self).sids@.no_duplicates(),
                kept@.no_duplicates(),
                forall|s: u32|
                    #[trigger] kept@.contains(s) == (self.sids@.subrange(0, i as int).contains(s)
                        && s != sid),
            decreases self.sids@.len() - i,
        {
            let x = self.sids[i];
            proof {
                assert forall|s: u32| #[trigger] self.sids@.subrange(0, i as int + 1).contains(s)
                    == (self.sids@.subrange(0, i as int).contains(s) || s == x) by {
                    let a = self.sids@.subrange(0, i as int);
                    let b = self.sids@.subrange(0, i as int + 1);
                    assert(b =~= a.push(x));
                    if a.contains(s) {
                        let k = choose|k: int| 0 <= k < a.len() && a[k] == s;
                        assert(b[k] == s);
                    }
                    if b.contains(s) && s != x {
                        let k = choose|k: int| 0 <= k < b.len() && b[k] == s;
                        assert(k < a.len());
                        assert(a[k] == s);
                    }
                    if s == x {
                        assert(b[i as int] == s);
                    }
                }
                if x != sid {
                    assert(!kept@.contains(x)) by {
                        if kept@.contains(x) {
                            let a = self.sids@.subrange(0, i as int);
                            let k = choose|k: int| 0 <= k < a.len() && a[k] == x;
                            assert(self.sids@[k] == self.sids@[i as int]);
                        }
                    }
                }
            }
            if x != sid {
                let ghost before = kept@;
                kept.push(x);
                proof {
                    assert forall|s: u32| #[trigger] kept@.contains(s) == (before.contains(s) || s == x) by {
                        if before.contains(s) {
                            let k = choose|k: int| 0 <= k < before.len() && before[k] == s;
                            assert(kept@[k] == s);
                        }
                        if kept@.contains(s) && s != x {
                            let k = choose|k: int| 0 <= k < kept@.len() && kept@[k] == s;
                            assert(k < before.len());
                            assert(before[k] == s);
                        }
                        if s == x {
                            assert(kept@[kept@.len() - 1] == s);
                        }
                    }
                }
            }
            i += 1;
        }
        proof {
            assert(self.sids@.subrange(0, self.sids@.len() as int) =~= self.sids@);
        }
        self.sids = kept;
    }

    /// Accepts a message for a tracked attempt; any other session identifier
    /// is `StaleOrUnknownSession`.
    pub fn check_session(&self, sid: u32) -> (r: Result<(), RosenpassError>)
        ensures
            self.tracks(sid) ==> r is Ok,
            !self.tracks(sid) ==> r == Err::<(), RosenpassError>(
                RosenpassError::StaleOrUnknownSession,
            ),
    {
        if self.contains(sid) {
            Ok(())
        } else {
            Err(RosenpassError::StaleOrUnknownSession)
        }
    }
}

} // verus!
