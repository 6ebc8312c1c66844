use vstd::prelude::*;

use crate::registry::KeyTable;

verus! {

/// A lock key is held at `now` while it is present and its lease, if it has one
/// yet, has not ended.
pub open spec fn lock_held(board: Map<Seq<char>, Option<i64>>, key: Seq<char>, now: i64) -> bool {
    board.contains_key(key) && (board[key].is_none() || board[key].unwrap() > now)
}

/// Set-if-absent on a board of leases: whether the key was granted, and the board
/// after. A granted key has no lease end until its expiry is set.
pub open spec fn acquire(board: Map<Seq<char>, Option<i64>>, key: Seq<char>, now: i64) -> (bool, Map<Seq<char>, Option<i64>>) {
    if lock_held(board, key, now) {
        (false, board)
    } else {
        (true, board.insert(key, None))
    }
}

/// The instant at which a lease of `secs` seconds taken at `now` ends, kept
/// inside the range of `i64`.
pub open spec fn lease_end(now: i64, secs: u32) -> i64 {
    if now + secs > i64::MAX { i64::MAX } else { (now + secs) as i64 }
}

/// The lock keys of one process and the instant at which each one's lease ends:
/// the set-if-absent and expire of the shared cache, kept in memory.
pub struct LockBoard {
    leases: KeyTable<Option<i64>>,
}

impl View for LockBoard {
    type V = Map<Seq<char>, Option<i64>>;

    closed spec fn view(&self) -> Map<Seq<char>, Option<i64>> {
        self.leases@
    }
}

impl LockBoard {
    pub closed spec fn wf(&self) -> bool {
        self.leases.wf()
    }

    /// A board with no key.
    pub fn new() -> (r: LockBoard)
        ensures
            r.wf(),
            r@ == Map::<Seq<char>, Option<i64>>::empty(),
    {
        LockBoard { leases: KeyTable::new() }
    }

    /// Whether `key` is held at `now`.
    pub fn is_held(&self, key: &String, now: i64) -> (r: bool)
        requires
            self.wf(),
        ensures
            r == lock_held(self@, key@, now),
    {
        match self.leases.get(key) {
            Some(Some(end)) => end > now,
            Some(None) => true,
            None => false,
        }
    }

    /// Takes `key` if nobody holds it at `now`. Returns whether it was taken.
    pub fn set_nx(&mut self, key: &String, now: i64) -> (r: bool)
        requires
            old(self).wf(),
        ensures
            final(self).wf(),
            (r, final(self)@) == acquire(old(self)@, key@, now),
    {
        if self.is_held(key, now) {
            false
        } else {
            self.leases.insert(key.clone(), None);
            true
        }
    }

    /// Lets the lease of a held `key` end `secs` seconds after `now`. Returns
    /// false, and changes nothing, when the key is not held.
    pub fn expire(&mut self, key: &String, now: i64, secs: u32) -> (r: bool)
        requires
            old(self).wf(),
        ensures
            final(self).wf(),
            r == lock_held(old(self)@, key@, now),
            final(self)@ == (if r { old(self)@.insert(key@, Some(lease_end(now, secs))) } else { old(self)@ }),
    {
        if !self.is_held(key, now) {
            return false;
        }
        let end = match now.checked_add(secs as i64) {
            Some(e) => e,
            None => i64::MAX,
        };
        self.leases.insert(key.clone(), Some(end));
        true
    }
}

} // verus!
