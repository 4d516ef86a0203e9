//! An in-memory record store: the model of the storage collaborator the
//! handlers mutate before emitting events.
//!
//! Ids are unique per collection; clients and active members are keyed by
//! user id, of which each user has at most one; every stored board lists
//! its host among its allowed members.

use vstd::prelude::*;
use crate::lock::moved_element;
use crate::lock::released_for;
use crate::lock::with_lock;
use crate::records::ActiveMember;
use crate::records::Board;
use crate::records::Client;
use crate::records::Element;
use crate::records::User;
use crate::util::seq_contains_str;
use crate::util::str_eq;
use crate::util::string_vec_contains;
use crate::util::u64_to_string;

verus! {

/// No two boards share an id.
pub open spec fn unique_board_ids(s: Seq<Board>) -> bool {
    forall|i: int, j: int| 0 <= i < j < s.len() ==> s[i]._id@ != s[j]._id@
}

/// No two elements share an id.
pub open spec fn unique_element_ids(s: Seq<Element>) -> bool {
    forall|i: int, j: int| 0 <= i < j < s.len() ==> s[i]._id@ != s[j]._id@
}

/// At most one client record per user.
pub open spec fn unique_client_users(s: Seq<Client>) -> bool {
    forall|i: int, j: int| 0 <= i < j < s.len() ==> s[i].user_id@ != s[j].user_id@
}

/// At most one active member per user.
pub open spec fn unique_member_users(s: Seq<ActiveMember>) -> bool {
    forall|i: int, j: int| 0 <= i < j < s.len() ==> s[i].user_id@ != s[j].user_id@
}

/// No two users share an id.
pub open spec fn unique_user_ids(s: Seq<User>) -> bool {
    forall|i: int, j: int| 0 <= i < j < s.len() ==> s[i]._id@ != s[j]._id@
}

/// Every stored board lists its host among its members.
pub open spec fn boards_wf(s: Seq<Board>) -> bool {
    forall|i: int| 0 <= i < s.len() ==> s[i].wf()
}

/// Whether a board with this id is stored.
pub open spec fn has_board(s: Seq<Board>, id: Seq<char>) -> bool {
    exists|i: int| 0 <= i < s.len() && s[i]._id@ == id
}

/// Whether an element with this id is stored.
pub open spec fn has_element(s: Seq<Element>, id: Seq<char>) -> bool {
    exists|i: int| 0 <= i < s.len() && s[i]._id@ == id
}

/// Whether a client record for this user is stored.
pub open spec fn has_client_for(s: Seq<Client>, user_id: Seq<char>) -> bool {
    exists|i: int| 0 <= i < s.len() && s[i].user_id@ == user_id
}

/// Whether an active member for this user is stored.
pub open spec fn has_member_for(s: Seq<ActiveMember>, user_id: Seq<char>) -> bool {
    exists|i: int| 0 <= i < s.len() && s[i].user_id@ == user_id
}

/// Whether a user with this id is stored.
pub open spec fn has_user(s: Seq<User>, id: Seq<char>) -> bool {
    exists|i: int| 0 <= i < s.len() && s[i]._id@ == id
}

/// The elements after a batch lock: those whose id is listed become locked
/// by `user`, the rest are untouched.
pub open spec fn batch_locked(s: Seq<Element>, ids: Seq<String>, user: String) -> Seq<Element> {
    s.map(
        |j: int, e: Element|
            if seq_contains_str(ids, e._id@) {
                with_lock(e, Some(user))
            } else {
                e
            },
    )
}

/// The elements after a batch unlock: those whose id is listed become
/// unlocked, the rest are untouched.
pub open spec fn batch_unlocked(s: Seq<Element>, ids: Seq<String>) -> Seq<Element> {
    s.map(
        |j: int, e: Element|
            if seq_contains_str(ids, e._id@) {
                with_lock(e, None)
            } else {
                e
            },
    )
}

/// The elements after a batch move: those whose id is listed move by the
/// offset and become locked by the mover, the rest are untouched.
pub open spec fn batch_moved(
    s: Seq<Element>,
    ids: Seq<String>,
    user: String,
    dx: int,
    dy: int,
) -> Seq<Element> {
    s.map(
        |j: int, e: Element|
            if seq_contains_str(ids, e._id@) {
                moved_element(e, user, dx, dy)
            } else {
                e
            },
    )
}

/// The elements after every lock held by `user` is released.
pub open spec fn batch_released(s: Seq<Element>, user: Seq<char>) -> Seq<Element> {
    s.map(|j: int, e: Element| released_for(e, user))
}

/// A conflict-free batch follows the transition table element by element:
/// every listed element ends in the state one lock or unlock call by the
/// user would produce, and unlisted elements are untouched.
pub proof fn lemma_batch_follows_table(s: Seq<Element>, ids: Seq<String>, user: String)
    requires
        forall|i: int|
            0 <= i < s.len() && seq_contains_str(ids, s[i]._id@) ==> !crate::lock::held_by_other(
                #[trigger] s[i],
                user@,
            ),
    ensures
        forall|i: int|
            0 <= i < s.len() && seq_contains_str(ids, s[i]._id@) ==> crate::lock::lock_state(
                #[trigger] batch_locked(s, ids, user)[i],
            ) == crate::lock::lock_step(crate::lock::lock_state(s[i]), user@),
        forall|i: int|
            0 <= i < s.len() && seq_contains_str(ids, s[i]._id@) ==> crate::lock::lock_state(
                #[trigger] batch_unlocked(s, ids)[i],
            ) == crate::lock::unlock_step(crate::lock::lock_state(s[i]), user@),
        forall|i: int|
            0 <= i < s.len() && !seq_contains_str(ids, #[trigger] s[i]._id@) ==> batch_locked(
                s,
                ids,
                user,
            )[i] == s[i] && batch_unlocked(s, ids)[i] == s[i],
{
    assert forall|i: int|
        0 <= i < s.len() && seq_contains_str(ids, s[i]._id@) implies crate::lock::lock_state(
        #[trigger] batch_locked(s, ids, user)[i],
    ) == crate::lock::lock_step(crate::lock::lock_state(s[i]), user@) by {
        assert(batch_locked(s, ids, user)[i] == with_lock(s[i], Some(user)));
    }
    assert forall|i: int|
        0 <= i < s.len() && seq_contains_str(ids, s[i]._id@) implies crate::lock::lock_state(
        #[trigger] batch_unlocked(s, ids)[i],
    ) == crate::lock::unlock_step(crate::lock::lock_state(s[i]), user@) by {
        assert(batch_unlocked(s, ids)[i] == with_lock(s[i], None));
    }
}

/// The in-memory store of all domain records.
pub struct Store {
    pub boards: Vec<Board>,
    pub elements: Vec<Element>,
    pub clients: Vec<Client>,
    pub users: Vec<User>,
    pub active_members: Vec<ActiveMember>,
    pub next_id: u64,
}

impl Store {
    /// The store invariant: unique keys everywhere, hosts are members.
    pub open spec fn wf(self) -> bool {
        &&& unique_board_ids(self.boards@)
        &&& unique_element_ids(self.elements@)
        &&& unique_client_users(self.clients@)
        &&& unique_member_users(self.members_view())
        &&& unique_user_ids(self.users@)
        &&& boards_wf(self.boards@)
    }

    /// The stored active members.
    pub open spec fn members_view(self) -> Seq<ActiveMember> {
        self.active_members@
    }

    /// An empty store.
    pub fn new() -> (r: Store)
        ensures
            r.wf(),
            r.boards@.len() == 0,
            r.elements@.len() == 0,
            r.clients@.len() == 0,
            r.users@.len() == 0,
            r.active_members@.len() == 0,
    {
        Store {
            boards: Vec::new(),
            elements: Vec::new(),
            clients: Vec::new(),
            users: Vec::new(),
            active_members: Vec::new(),
            next_id: 0,
        }
    }

    /// Draws a fresh id string from the store's counter: the counter's
    /// decimal digits. The records are untouched.
    pub fn fresh_id(&mut self) -> (r: String)
        ensures
            r@ == crate::util::spec_decimal(old(self).next_id as nat),
            final(self).boards == old(self).boards,
            final(self).elements == old(self).elements,
            final(self).clients == old(self).clients,
            final(self).users == old(self).users,
            final(self).active_members == old(self).active_members,
            final(self).wf() == old(self).wf(),
    {
        let id = u64_to_string(self.next_id);
        if self.next_id < u64::MAX {
            self.next_id = self.next_id + 1;
        }
        id
    }

    /// Creates a board under a fresh id: the creator becomes the host and
    /// its sole allowed member, so the host-is-a-member invariant holds
    /// from birth. Returns the id, or nothing when the drawn id collides.
    pub fn create_board(&mut self, name: String, host: String) -> (r: Option<String>)
        requires
            old(self).wf(),
        ensures
            final(self).wf(),
            final(self).elements == old(self).elements,
            final(self).clients == old(self).clients,
            final(self).users == old(self).users,
            final(self).active_members == old(self).active_members,
            match r {
                Some(id) => {
                    &&& final(self).boards@.len() == old(self).boards@.len() + 1
                    &&& (forall|k: int|
                        0 <= k < old(self).boards@.len() ==> final(self).boards@[k] == old(
                            self,
                        ).boards@[k])
                    &&& final(self).boards@.last()._id@ == id@
                    &&& final(self).boards@.last().name == name
                    &&& final(self).boards@.last().host == host
                    &&& final(self).boards@.last().allowed_members@.len() == 1
                    &&& final(self).boards@.last().allowed_members@[0] == host
                },
                None => final(self).boards == old(self).boards && has_board(
                    old(self).boards@,
                    crate::util::spec_decimal(old(self).next_id as nat),
                ),
            },
    {
        let id = self.fresh_id();
        let mut members: Vec<String> = Vec::new();
        members.push(host.clone());
        let board = Board { _id: id.clone(), name, host, allowed_members: members };
        assert(board.wf()) by {
            assert(board.allowed_members@[0]@ == board.host@);
        }
        if self.insert_board(board) {
            Some(id)
        } else {
            None
        }
    }

    /// Index of the board with this id, if stored.
    pub fn find_board(&self, id: &str) -> (r: Option<usize>)
        ensures
            match r {
                Some(i) => i < self.boards@.len() && self.boards@[i as int]._id@ == id@,
                None => !has_board(self.boards@, id@),
            },
    {
        let mut i: usize = 0;
        while i < self.boards.len()
            invariant
                i <= self.boards@.len(),
                forall|j: int| 0 <= j < i ==> self.boards@[j]._id@ != id@,
            decreases self.boards@.len() - i,
        {
            if str_eq(self.boards[i]._id.as_str(), id) {
                return Some(i);
            }
            i = i + 1;
        }
        None
    }

    /// Stores a new board; refused when the id is already taken or the
    /// host is not among the members.
    pub fn insert_board(&mut self, b: Board) -> (r: bool)
        requires
            old(self).wf(),
        ensures
            final(self).wf(),
            r == (!has_board(old(self).boards@, b._id@) && b.wf()),
            r ==> final(self).boards@ == old(self).boards@.push(b),
            !r ==> *final(self) == *old(self),
            final(self).elements == old(self).elements,
            final(self).clients == old(self).clients,
            final(self).users == old(self).users,
            final(self).active_members == old(self).active_members,
    {
        let taken = self.find_board(b._id.as_str()).is_some();
        let hosted = string_vec_contains(&b.allowed_members, b.host.as_str());
        if taken || !hosted {
            return false;
        }
        self.boards.push(b);
        true
    }

    /// Replaces the board at an index by one with the same id.
    pub fn replace_board_at(&mut self, i: usize, b: Board)
        requires
            old(self).wf(),
            i < old(self).boards@.len(),
            b._id@ == old(self).boards@[i as int]._id@,
            b.wf(),
        ensures
            final(self).wf(),
            final(self).boards@ == old(self).boards@.update(i as int, b),
            final(self).elements == old(self).elements,
            final(self).clients == old(self).clients,
            final(self).users == old(self).users,
            final(self).active_members == old(self).active_members,
    {
        self.boards.remove(i);
        self.boards.insert(i, b);
        assert(self.boards@ =~= old(self).boards@.update(i as int, b));
    }

    /// Index of the element with this id, if stored.
    pub fn find_element(&self, id: &str) -> (r: Option<usize>)
        ensures
            match r {
                Some(i) => i < self.elements@.len() && self.elements@[i as int]._id@ == id@,
                None => !has_element(self.elements@, id@),
            },
    {
        let mut i: usize = 0;
        while i < self.elements.len()
            invariant
                i <= self.elements@.len(),
                forall|j: int| 0 <= j < i ==> self.elements@[j]._id@ != id@,
            decreases self.elements@.len() - i,
        {
            if str_eq(self.elements[i]._id.as_str(), id) {
                return Some(i);
            }
            i = i + 1;
        }
        None
    }

    /// Stores a new element; refused when the id is already taken.
    pub fn insert_element(&mut self, e: Element) -> (r: bool)
        requires
            old(self).wf(),
        ensures
            final(self).wf(),
            r == !has_element(old(self).elements@, e._id@),
            r ==> final(self).elements@ == old(self).elements@.push(e),
            !r ==> *final(self) == *old(self),
            final(self).boards == old(self).boards,
            final(self).clients == old(self).clients,
            final(self).users == old(self).users,
            final(self).active_members == old(self).active_members,
    {
        if self.find_element(e._id.as_str()).is_some() {
            return false;
        }
        self.elements.push(e);
        true
    }

    /// Replaces the element at an index by one with the same id.
    pub fn replace_element_at(&mut self, i: usize, e: Element)
        requires
            old(self).wf(),
            i < old(self).elements@.len(),
            e._id@ == old(self).elements@[i as int]._id@,
        ensures
            final(self).wf(),
            final(self).elements@ == old(self).elements@.update(i as int, e),
            final(self).boards == old(self).boards,
            final(self).clients == old(self).clients,
            final(self).users == old(self).users,
            final(self).active_members == old(self).active_members,
    {
        self.elements.remove(i);
        self.elements.insert(i, e);
        assert(self.elements@ =~= old(self).elements@.update(i as int, e));
    }

    /// Removes the element at an index.
    pub fn remove_element_at(&mut self, i: usize)
        requires
            old(self).wf(),
            i < old(self).elements@.len(),
        ensures
            final(self).wf(),
            final(self).elements@ == old(self).elements@.remove(i as int),
            final(self).boards == old(self).boards,
            final(self).clients == old(self).clients,
            final(self).users == old(self).users,
            final(self).active_members == old(self).active_members,
    {
        self.elements.remove(i);
    }

    /// The stored elements whose id is in the list, in store order.
    pub fn elements_with_ids(&self, ids: &Vec<String>) -> (r: Vec<Element>)
        ensures
            r@ == self.elements@.filter(|e: Element| seq_contains_str(ids@, e._id@)),
    {
        let ghost f = |e: Element| seq_contains_str(ids@, e._id@);
        let mut out: Vec<Element> = Vec::new();
        let mut i: usize = 0;
        while i < self.elements.len()
            invariant
                i <= self.elements@.len(),
                out@ == self.elements@.take(i as int).filter(
                    |e: Element| seq_contains_str(ids@, e._id@),
                ),
            decreases self.elements@.len() - i,
        {
            assert(self.elements@.take(i + 1) =~= self.elements@.take(i as int).push(
                self.elements@[i as int],
            ));
            proof {
                reveal_with_fuel(Seq::<Element>::filter, 2);
                let stem = self.elements@.take(i as int);
                let grown = stem.push(self.elements@[i as int]);
                assert(grown.drop_last() =~= stem);
                assert(grown.last() == self.elements@[i as int]);
                assert(grown.filter(f) == if f(self.elements@[i as int]) {
                    stem.filter(f).push(self.elements@[i as int])
                } else {
                    stem.filter(f)
                });
            }
            if string_vec_contains(ids, self.elements[i]._id.as_str()) {
                out.push(self.elements[i].duplicate());
            }
            i = i + 1;
        }
        assert(self.elements@.take(self.elements@.len() as int) =~= self.elements@);
        out
    }

    /// The stored elements currently locked by this user, in store order.
    pub fn elements_locked_by(&self, user: &String) -> (r: Vec<Element>)
        ensures
            r@ == self.elements@.filter(
                |e: Element| crate::lock::lock_state(e) == Some(user@),
            ),
    {
        let ghost f = |e: Element| crate::lock::lock_state(e) == Some(user@);
        let mut out: Vec<Element> = Vec::new();
        let mut i: usize = 0;
        while i < self.elements.len()
            invariant
                i <= self.elements@.len(),
                out@ == self.elements@.take(i as int).filter(
                    |e: Element| crate::lock::lock_state(e) == Some(user@),
                ),
            decreases self.elements@.len() - i,
        {
            assert(self.elements@.take(i + 1) =~= self.elements@.take(i as int).push(
                self.elements@[i as int],
            ));
            proof {
                reveal_with_fuel(Seq::<Element>::filter, 2);
                let stem = self.elements@.take(i as int);
                let grown = stem.push(self.elements@[i as int]);
                assert(grown.drop_last() =~= stem);
                assert(grown.last() == self.elements@[i as int]);
                assert(grown.filter(f) == if f(self.elements@[i as int]) {
                    stem.filter(f).push(self.elements@[i as int])
                } else {
                    stem.filter(f)
                });
            }
            let held = match &self.elements[i].locked_by {
                Some(h) => str_eq(h.as_str(), user.as_str()),
                None => false,
            };
            if held {
                out.push(self.elements[i].duplicate());
            }
            i = i + 1;
        }
        assert(self.elements@.take(self.elements@.len() as int) =~= self.elements@);
        out
    }

    /// Locks every listed element for `user`; unlisted elements are
    /// untouched.
    pub fn lock_elements_by_ids(&mut self, ids: &Vec<String>, user: &String)
        requires
            old(self).wf(),
        ensures
            final(self).wf(),
            final(self).elements@ == batch_locked(old(self).elements@, ids@, *user),
            final(self).boards == old(self).boards,
            final(self).clients == old(self).clients,
            final(self).users == old(self).users,
            final(self).active_members == old(self).active_members,
    {
        let ghost target = batch_locked(self.elements@, ids@, *user);
        let mut out: Vec<Element> = Vec::new();
        let mut i: usize = 0;
        while i < self.elements.len()
            invariant
                i <= self.elements@.len(),
                out@.len() == i,
                target == batch_locked(self.elements@, ids@, *user),
                forall|j: int| 0 <= j < i ==> out@[j] == target[j],
            decreases self.elements@.len() - i,
        {
            let e = &self.elements[i];
            if string_vec_contains(ids, e._id.as_str()) {
                let mut ne = e.duplicate();
                ne.locked_by = Some(user.clone());
                out.push(ne);
            } else {
                out.push(e.duplicate());
            }
            i = i + 1;
        }
        assert(out@ =~= target);
        self.elements = out;
        assert forall|a: int, b: int|
            0 <= a < b < self.elements@.len() implies self.elements@[a]._id@
            != self.elements@[b]._id@ by {
            assert(old(self).elements@[a]._id@ != old(self).elements@[b]._id@);
        }
    }

    /// Unlocks every listed element; unlisted elements are untouched.
    pub fn unlock_elements_by_ids(&mut self, ids: &Vec<String>)
        requires
            old(self).wf(),
        ensures
            final(self).wf(),
            final(self).elements@ == batch_unlocked(old(self).elements@, ids@),
            final(self).boards == old(self).boards,
            final(self).clients == old(self).clients,
            final(self).users == old(self).users,
            final(self).active_members == old(self).active_members,
    {
        let ghost target = batch_unlocked(self.elements@, ids@);
        let mut out: Vec<Element> = Vec::new();
        let mut i: usize = 0;
        while i < self.elements.len()
            invariant
                i <= self.elements@.len(),
                out@.len() == i,
                target == batch_unlocked(self.elements@, ids@),
                forall|j: int| 0 <= j < i ==> out@[j] == target[j],
            decreases self.elements@.len() - i,
        {
            let e = &self.elements[i];
            if string_vec_contains(ids, e._id.as_str()) {
                let mut ne = e.duplicate();
                ne.locked_by = None;
                out.push(ne);
            } else {
                out.push(e.duplicate());
            }
            i = i + 1;
        }
        assert(out@ =~= target);
        self.elements = out;
        assert forall|a: int, b: int|
            0 <= a < b < self.elements@.len() implies self.elements@[a]._id@
            != self.elements@[b]._id@ by {
            assert(old(self).elements@[a]._id@ != old(self).elements@[b]._id@);
        }
    }

    /// Moves every listed element by the offset and locks it for the
    /// mover; unlisted elements are untouched.
    pub fn move_elements_by_ids(
        &mut self,
        ids: &Vec<String>,
        user: &String,
        x_offset: i64,
        y_offset: i64,
    )
        requires
            old(self).wf(),
        ensures
            final(self).wf(),
            final(self).elements@ == batch_moved(
                old(self).elements@,
                ids@,
                *user,
                x_offset as int,
                y_offset as int,
            ),
            final(self).boards == old(self).boards,
            final(self).clients == old(self).clients,
            final(self).users == old(self).users,
            final(self).active_members == old(self).active_members,
    {
        let ghost target = batch_moved(self.elements@, ids@, *user, x_offset as int,
            y_offset as int);
        let mut out: Vec<Element> = Vec::new();
        let mut i: usize = 0;
        while i < self.elements.len()
            invariant
                i <= self.elements@.len(),
                out@.len() == i,
                target == batch_moved(self.elements@, ids@, *user, x_offset as int,
                    y_offset as int),
                forall|j: int| 0 <= j < i ==> out@[j] == target[j],
            decreases self.elements@.len() - i,
        {
            let e = &self.elements[i];
            if string_vec_contains(ids, e._id.as_str()) {
                let mut ne = e.duplicate();
                ne.locked_by = Some(user.clone());
                ne.x = crate::lock::coord_add(e.x, x_offset);
                ne.y = crate::lock::coord_add(e.y, y_offset);
                out.push(ne);
                assert(out@[i as int] == target[i as int]);
            } else {
                out.push(e.duplicate());
            }
            i = i + 1;
        }
        assert(out@ =~= target);
        self.elements = out;
        assert forall|a: int, b: int|
            0 <= a < b < self.elements@.len() implies self.elements@[a]._id@
            != self.elements@[b]._id@ by {
            assert(old(self).elements@[a]._id@ != old(self).elements@[b]._id@);
        }
    }

    /// Clears every lock held by this user; elements locked by others, or
    /// unlocked, are untouched. Safe when the user holds no locks.
    pub fn release_locks_of(&mut self, user: &String)
        requires
            old(self).wf(),
        ensures
            final(self).wf(),
            final(self).elements@ == batch_released(old(self).elements@, user@),
            final(self).boards == old(self).boards,
            final(self).clients == old(self).clients,
            final(self).users == old(self).users,
            final(self).active_members == old(self).active_members,
    {
        let ghost target = batch_released(self.elements@, user@);
        let mut out: Vec<Element> = Vec::new();
        let mut i: usize = 0;
        while i < self.elements.len()
            invariant
                i <= self.elements@.len(),
                out@.len() == i,
                target == batch_released(self.elements@, user@),
                forall|j: int| 0 <= j < i ==> out@[j] == target[j],
            decreases self.elements@.len() - i,
        {
            let e = &self.elements[i];
            let held = match &e.locked_by {
                Some(h) => str_eq(h.as_str(), user.as_str()),
                None => false,
            };
            if held {
                let mut ne = e.duplicate();
                ne.locked_by = None;
                out.push(ne);
            } else {
                out.push(e.duplicate());
            }
            i = i + 1;
        }
        assert(out@ =~= target);
        self.elements = out;
        assert forall|a: int, b: int|
            0 <= a < b < self.elements@.len() implies self.elements@[a]._id@
            != self.elements@[b]._id@ by {
            assert(old(self).elements@[a]._id@ != old(self).elements@[b]._id@);
        }
    }

    /// Index of the client record for this user, if stored.
    pub fn find_client_by_user(&self, user_id: &str) -> (r: Option<usize>)
        ensures
            match r {
                Some(i) => i < self.clients@.len() && self.clients@[i as int].user_id@ == user_id@,
                None => !has_client_for(self.clients@, user_id@),
            },
    {
        let mut i: usize = 0;
        while i < self.clients.len()
            invariant
                i <= self.clients@.len(),
                forall|j: int| 0 <= j < i ==> self.clients@[j].user_id@ != user_id@,
            decreases self.clients@.len() - i,
        {
            if str_eq(self.clients[i].user_id.as_str(), user_id) {
                return Some(i);
            }
            i = i + 1;
        }
        None
    }

    /// Stores a new client record; refused when the user already has one.
    pub fn insert_client(&mut self, c: Client) -> (r: bool)
        requires
            old(self).wf(),
        ensures
            final(self).wf(),
            r == !has_client_for(old(self).clients@, c.user_id@),
            r ==> final(self).clients@ == old(self).clients@.push(c),
            !r ==> *final(self) == *old(self),
            final(self).boards == old(self).boards,
            final(self).elements == old(self).elements,
            final(self).users == old(self).users,
            final(self).active_members == old(self).active_members,
    {
        if self.find_client_by_user(c.user_id.as_str()).is_some() {
            return false;
        }
        self.clients.push(c);
        true
    }

    /// Replaces the client record at an index by one for the same user.
    pub fn replace_client_at(&mut self, i: usize, c: Client)
        requires
            old(self).wf(),
            i < old(self).clients@.len(),
            c.user_id@ == old(self).clients@[i as int].user_id@,
        ensures
            final(self).wf(),
            final(self).clients@ == old(self).clients@.update(i as int, c),
            final(self).boards == old(self).boards,
            final(self).elements == old(self).elements,
            final(self).users == old(self).users,
            final(self).active_members == old(self).active_members,
    {
        self.clients.remove(i);
        self.clients.insert(i, c);
        assert(self.clients@ =~= old(self).clients@.update(i as int, c));
    }

    /// Removes the client record at an index.
    pub fn remove_client_at(&mut self, i: usize)
        requires
            old(self).wf(),
            i < old(self).clients@.len(),
        ensures
            final(self).wf(),
            final(self).clients@ == old(self).clients@.remove(i as int),
            final(self).boards == old(self).boards,
            final(self).elements == old(self).elements,
            final(self).users == old(self).users,
            final(self).active_members == old(self).active_members,
    {
        self.clients.remove(i);
    }

    /// Index of the active member for this user, if stored.
    pub fn find_member_by_user(&self, user_id: &str) -> (r: Option<usize>)
        ensures
            match r {
                Some(i) => i < self.active_members@.len() && self.active_members@[i as int].user_id@
                    == user_id@,
                None => !has_member_for(self.active_members@, user_id@),
            },
    {
        let mut i: usize = 0;
        while i < self.active_members.len()
            invariant
                i <= self.active_members@.len(),
                forall|j: int| 0 <= j < i ==> self.active_members@[j].user_id@ != user_id@,
            decreases self.active_members@.len() - i,
        {
            if str_eq(self.active_members[i].user_id.as_str(), user_id) {
                return Some(i);
            }
            i = i + 1;
        }
        None
    }

    /// Stores a new active member; refused when the user already has one.
    pub fn insert_member(&mut self, m: ActiveMember) -> (r: bool)
        requires
            old(self).wf(),
        ensures
            final(self).wf(),
            r == !has_member_for(old(self).active_members@, m.user_id@),
            r ==> final(self).active_members@ == old(self).active_members@.push(m),
            !r ==> *final(self) == *old(self),
            final(self).boards == old(self).boards,
            final(self).elements == old(self).elements,
            final(self).clients == old(self).clients,
            final(self).users == old(self).users,
    {
        if self.find_member_by_user(m.user_id.as_str()).is_some() {
            return false;
        }
        self.active_members.push(m);
        true
    }

    /// Replaces the active member at an index by one for the same user.
    pub fn replace_member_at(&mut self, i: usize, m: ActiveMember)
        requires
            old(self).wf(),
            i < old(self).active_members@.len(),
            m.user_id@ == old(self).active_members@[i as int].user_id@,
        ensures
            final(self).wf(),
            final(self).active_members@ == old(self).active_members@.update(i as int, m),
            final(self).boards == old(self).boards,
            final(self).elements == old(self).elements,
            final(self).clients == old(self).clients,
            final(self).users == old(self).users,
    {
        self.active_members.remove(i);
        self.active_members.insert(i, m);
        assert(self.active_members@ =~= old(self).active_members@.update(i as int, m));
    }

    /// Removes the active member at an index.
    pub fn remove_member_at(&mut self, i: usize)
        requires
            old(self).wf(),
            i < old(self).active_members@.len(),
        ensures
            final(self).wf(),
            final(self).active_members@ == old(self).active_members@.remove(i as int),
            final(self).boards == old(self).boards,
            final(self).elements == old(self).elements,
            final(self).clients == old(self).clients,
            final(self).users == old(self).users,
    {
        self.active_members.remove(i);
    }

    /// Index of the user with this id, if stored.
    pub fn find_user(&self, id: &str) -> (r: Option<usize>)
        ensures
            match r {
                Some(i) => i < self.users@.len() && self.users@[i as int]._id@ == id@,
                None => !has_user(self.users@, id@),
            },
    {
        let mut i: usize = 0;
        while i < self.users.len()
            invariant
                i <= self.users@.len(),
                forall|j: int| 0 <= j < i ==> self.users@[j]._id@ != id@,
            decreases self.users@.len() - i,
        {
            if str_eq(self.users[i]._id.as_str(), id) {
                return Some(i);
            }
            i = i + 1;
        }
        None
    }

    /// Stores a new user; refused when the id is already taken.
    pub fn insert_user(&mut self, u: User) -> (r: bool)
        requires
            old(self).wf(),
        ensures
            final(self).wf(),
            r == !has_user(old(self).users@, u._id@),
            r ==> final(self).users@ == old(self).users@.push(u),
            !r ==> *final(self) == *old(self),
            final(self).boards == old(self).boards,
            final(self).elements == old(self).elements,
            final(self).clients == old(self).clients,
            final(self).active_members == old(self).active_members,
    {
        if self.find_user(u._id.as_str()).is_some() {
            return false;
        }
        self.users.push(u);
        true
    }
}

} // verus!
