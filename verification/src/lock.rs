//! The element-locking discipline.
//!
//! Each element is either unlocked or locked by one user. Geometry and
//! content may only be mutated by the current lock holder. Batch operations
//! check the whole batch first and touch nothing when any element is held
//! by a different user.

use vstd::prelude::*;
use crate::records::Element;
use crate::util::str_eq;

verus! {

/// The lock state of an element: `None`, or the holder's user id.
pub open spec fn lock_state(e: Element) -> Option<Seq<char>> {
    match e.locked_by {
        Some(u) => Some(u@),
        None => None,
    }
}

/// True when the element is locked by a user other than `user`.
pub open spec fn held_by_other(e: Element, user: Seq<char>) -> bool {
    lock_state(e) is Some && lock_state(e)->Some_0 != user
}

/// The lock state after `user` attempts to lock: an unlocked element
/// becomes locked by `user`; a locked element keeps its holder.
pub open spec fn lock_step(st: Option<Seq<char>>, user: Seq<char>) -> Option<Seq<char>> {
    match st {
        None => Some(user),
        Some(h) => Some(h),
    }
}

/// The lock state after `user` attempts to unlock: the element becomes
/// unlocked only when `user` is the holder.
pub open spec fn unlock_step(st: Option<Seq<char>>, user: Seq<char>) -> Option<Seq<char>> {
    match st {
        Some(h) => if h == user { None } else { Some(h) },
        None => None,
    }
}

/// Whether `user` may mutate content or geometry: only the holder may.
pub open spec fn can_mutate(st: Option<Seq<char>>, user: Seq<char>) -> bool {
    st == Some(user)
}

/// How a lock attempt is answered.
#[derive(Clone, Copy, Debug, PartialEq, Eq, Structural)]
pub enum LockSignal {
    /// The element was unlocked and is now locked by the caller.
    Acquired,
    /// The caller already held the lock; nothing changed.
    AlreadyOwn,
    /// Another user holds the lock; nothing changed.
    HeldByOther,
}

/// How an unlock attempt is answered.
#[derive(Clone, Copy, Debug, PartialEq, Eq, Structural)]
pub enum UnlockSignal {
    /// The caller held the lock and the element is now unlocked.
    Released,
    /// The element was not locked; nothing changed.
    AlreadyUnlocked,
    /// Another user holds the lock; nothing changed.
    HeldByOther,
}

/// The signal a lock attempt yields, as a function of the prior state.
pub open spec fn lock_signal_of(st: Option<Seq<char>>, user: Seq<char>) -> LockSignal {
    match st {
        None => LockSignal::Acquired,
        Some(h) => if h == user { LockSignal::AlreadyOwn } else { LockSignal::HeldByOther },
    }
}

/// The signal an unlock attempt yields, as a function of the prior state.
pub open spec fn unlock_signal_of(st: Option<Seq<char>>, user: Seq<char>) -> UnlockSignal {
    match st {
        Some(h) => if h == user { UnlockSignal::Released } else { UnlockSignal::HeldByOther },
        None => UnlockSignal::AlreadyUnlocked,
    }
}

/// Classifies a lock attempt against the element's current state.
pub fn classify_lock(e: &Element, user: &String) -> (r: LockSignal)
    ensures
        r == lock_signal_of(lock_state(*e), user@),
{
    match &e.locked_by {
        None => LockSignal::Acquired,
        Some(h) => {
            if str_eq(h.as_str(), user.as_str()) {
                LockSignal::AlreadyOwn
            } else {
                LockSignal::HeldByOther
            }
        },
    }
}

/// Classifies an unlock attempt against the element's current state.
pub fn classify_unlock(e: &Element, user: &String) -> (r: UnlockSignal)
    ensures
        r == unlock_signal_of(lock_state(*e), user@),
{
    match &e.locked_by {
        None => UnlockSignal::AlreadyUnlocked,
        Some(h) => {
            if str_eq(h.as_str(), user.as_str()) {
                UnlockSignal::Released
            } else {
                UnlockSignal::HeldByOther
            }
        },
    }
}

/// The element with its lock replaced and every other field kept.
pub open spec fn with_lock(e: Element, l: Option<String>) -> Element {
    Element {
        _id: e._id,
        selected: e.selected,
        locked_by: l,
        x: e.x,
        y: e.y,
        rotation: e.rotation,
        scale_x: e.scale_x,
        scale_y: e.scale_y,
        z_index: e.z_index,
        created_at: e.created_at,
        text: e.text,
        element_type: e.element_type,
        board_id: e.board_id,
        color: e.color,
    }
}

/// Saturating addition on 64-bit canvas coordinates.
pub open spec fn sat_add(a: int, b: int) -> int {
    if a + b > i64::MAX as int {
        i64::MAX as int
    } else if a + b < i64::MIN as int {
        i64::MIN as int
    } else {
        a + b
    }
}

/// Adds two coordinates, clamping at the representable range.
pub fn coord_add(a: i64, b: i64) -> (r: i64)
    ensures
        r as int == sat_add(a as int, b as int),
{
    if b >= 0 {
        if a > i64::MAX - b {
            i64::MAX
        } else {
            a + b
        }
    } else {
        if a < i64::MIN - b {
            i64::MIN
        } else {
            a + b
        }
    }
}

/// The element moved by an offset and locked by the mover; nothing else
/// changes.
pub open spec fn moved_element(e: Element, user: String, dx: int, dy: int) -> Element {
    Element {
        locked_by: Some(user),
        x: sat_add(e.x as int, dx) as i64,
        y: sat_add(e.y as int, dy) as i64,
        ..e
    }
}

/// The element with its lock cleared when `user` holds it, and unchanged
/// otherwise.
pub open spec fn released_for(e: Element, user: Seq<char>) -> Element {
    if lock_state(e) == Some(user) {
        with_lock(e, None)
    } else {
        e
    }
}

/// Releasing a user's locks is idempotent: a second pass changes nothing,
/// and a pass over elements the user does not hold leaves them all as they
/// were.
pub proof fn lemma_release_idempotent(e: Element, user: Seq<char>)
    ensures
        released_for(released_for(e, user), user) == released_for(e, user),
        lock_state(e) != Some(user) ==> released_for(e, user) == e,
{
}

/// The element a lock attempt leaves behind: changed only when the lock
/// was acquired.
pub open spec fn after_lock_attempt(e: Element, user: String) -> Element {
    match lock_signal_of(lock_state(e), user@) {
        LockSignal::Acquired => with_lock(e, Some(user)),
        LockSignal::AlreadyOwn => e,
        LockSignal::HeldByOther => e,
    }
}

/// The element an unlock attempt leaves behind: changed only when the
/// holder released it.
pub open spec fn after_unlock_attempt(e: Element, user: String) -> Element {
    match unlock_signal_of(lock_state(e), user@) {
        UnlockSignal::Released => with_lock(e, None),
        UnlockSignal::AlreadyUnlocked => e,
        UnlockSignal::HeldByOther => e,
    }
}

/// Each attempt leaves exactly the state the transition table predicts,
/// and an attempt that is not an acquisition or a release leaves the whole
/// element untouched.
pub proof fn lemma_attempts_follow_table(e: Element, user: String)
    ensures
        lock_state(after_lock_attempt(e, user)) == lock_step(lock_state(e), user@),
        lock_state(after_unlock_attempt(e, user)) == unlock_step(lock_state(e), user@),
        lock_signal_of(lock_state(e), user@) != LockSignal::Acquired ==> after_lock_attempt(
            e,
            user,
        ) == e,
        can_mutate(lock_state(e), user@) == (lock_signal_of(lock_state(e), user@)
            == LockSignal::AlreadyOwn),
        unlock_signal_of(lock_state(e), user@) != UnlockSignal::Released ==> after_unlock_attempt(
            e,
            user,
        ) == e,
{
}

/// One call against the locking state machine: the caller's user id and
/// what was asked.
pub enum LockOp {
    Lock(Seq<char>),
    Unlock(Seq<char>),
    Mutate(Seq<char>),
}

/// The lock state after one call: locks and unlocks follow the transition
/// table; a content mutation never changes the lock state.
pub open spec fn apply_op(st: Option<Seq<char>>, op: LockOp) -> Option<Seq<char>> {
    match op {
        LockOp::Lock(u) => lock_step(st, u),
        LockOp::Unlock(u) => unlock_step(st, u),
        LockOp::Mutate(u) => st,
    }
}

/// The lock state after a sequence of calls, applied in order.
pub open spec fn apply_ops(st: Option<Seq<char>>, ops: Seq<LockOp>) -> Option<Seq<char>>
    decreases ops.len(),
{
    if ops.len() == 0 {
        st
    } else {
        apply_ops(apply_op(st, ops[0]), ops.drop_first())
    }
}

/// Splitting the last call off a sequence: the state after all calls is
/// one call applied to the state after the rest.
pub proof fn lemma_apply_ops_snoc(st: Option<Seq<char>>, ops: Seq<LockOp>, op: LockOp)
    ensures
        apply_ops(st, ops.push(op)) == apply_op(apply_ops(st, ops), op),
    decreases ops.len(),
{
    reveal_with_fuel(apply_ops, 3);
    if ops.len() == 0 {
        assert(ops.push(op)[0] == op);
        assert(ops.push(op).drop_first() =~= Seq::<LockOp>::empty());
    } else {
        assert(ops.push(op)[0] == ops[0]);
        assert(ops.push(op).drop_first() =~= ops.drop_first().push(op));
        assert(apply_ops(st, ops.push(op)) == apply_ops(
            apply_op(st, ops[0]),
            ops.drop_first().push(op),
        ));
        lemma_apply_ops_snoc(apply_op(st, ops[0]), ops.drop_first(), op);
        assert(apply_ops(st, ops) == apply_ops(apply_op(st, ops[0]), ops.drop_first()));
    }
}

/// No sequence of calls leaves the lock pointing at a user who never
/// successfully locked: whoever holds the lock at the end either held it
/// at the start, or issued a lock call at a point where the element was
/// unlocked.
pub proof fn lemma_holder_acquired(st0: Option<Seq<char>>, ops: Seq<LockOp>, u: Seq<char>)
    requires
        apply_ops(st0, ops) == Some(u),
    ensures
        st0 == Some(u) || exists|i: int|
            0 <= i < ops.len() && ops[i] == LockOp::Lock(u) && apply_ops(st0, ops.take(i)) is None,
    decreases ops.len(),
{
    if ops.len() == 0 {
    } else {
        let pre = ops.drop_last();
        let last = ops.last();
        assert(ops =~= pre.push(last));
        lemma_apply_ops_snoc(st0, pre, last);
        let mid = apply_ops(st0, pre);
        if mid == Some(u) {
            lemma_holder_acquired(st0, pre, u);
            if st0 != Some(u) {
                let i = choose|i: int|
                    0 <= i < pre.len() && pre[i] == LockOp::Lock(u) && apply_ops(st0, pre.take(i))
                        is None;
                assert(ops.take(i) =~= pre.take(i));
                assert(ops[i] == LockOp::Lock(u) && apply_ops(st0, ops.take(i)) is None);
            }
        } else {
            match last {
                LockOp::Lock(v) => {
                    assert(mid is None && v == u);
                    let i = pre.len() as int;
                    assert(ops.take(i) =~= pre);
                    assert(ops[i] == LockOp::Lock(u) && apply_ops(st0, ops.take(i)) is None);
                },
                LockOp::Unlock(v) => {
                    assert(apply_op(mid, last) != Some(u));
                },
                LockOp::Mutate(v) => {
                    assert(apply_op(mid, last) == mid);
                },
            }
        }
    }
}

/// Idempotence of the lock discipline: re-locking by the holder keeps the
/// holder and is answered with the distinct already-own signal; unlocking
/// an unlocked element changes nothing and is answered with the distinct
/// already-unlocked signal.
pub proof fn lemma_lock_idempotence(u: Seq<char>)
    ensures
        lock_step(Some(u), u) == Some(u),
        lock_signal_of(Some(u), u) == LockSignal::AlreadyOwn,
        unlock_step(None, u) == None::<Seq<char>>,
        unlock_signal_of(None, u) == UnlockSignal::AlreadyUnlocked,
{
}

/// True when some element of the batch is locked by a user other than
/// `user`; such a batch must be rejected whole.
pub open spec fn batch_conflict(elems: Seq<Element>, user: Seq<char>) -> bool {
    exists|i: int| 0 <= i < elems.len() && held_by_other(elems[i], user)
}

/// Finds an element locked by a different user, if any.
pub fn find_batch_conflict(elements: &Vec<Element>, user: &String) -> (r: Option<usize>)
    ensures
        match r {
            Some(i) => i < elements@.len() && held_by_other(elements@[i as int], user@),
            None => !batch_conflict(elements@, user@),
        },
{
    let mut i: usize = 0;
    while i < elements.len()
        invariant
            i <= elements@.len(),
            forall|j: int| 0 <= j < i ==> !held_by_other(elements@[j], user@),
        decreases elements@.len() - i,
    {
        match &elements[i].locked_by {
            Some(h) => {
                if !str_eq(h.as_str(), user.as_str()) {
                    return Some(i);
                }
            },
            None => {},
        }
        i = i + 1;
    }
    None
}

/// Every element of the batch with its lock set to `user`; all other
/// fields are untouched.
pub fn lock_all(elements: &Vec<Element>, user: &String) -> (r: Vec<Element>)
    ensures
        r@.len() == elements@.len(),
        forall|i: int| 0 <= i < elements@.len()
            ==> r@[i] == with_lock(elements@[i], Some(*user)),
{
    let mut out: Vec<Element> = Vec::new();
    let mut i: usize = 0;
    while i < elements.len()
        invariant
            i <= elements@.len(),
            out@.len() == i,
            forall|j: int| 0 <= j < i ==> out@[j] == with_lock(elements@[j], Some(*user)),
        decreases elements@.len() - i,
    {
        let e = &elements[i];
        let mut locked = e.duplicate();
        locked.locked_by = Some(user.clone());
        out.push(locked);
        i = i + 1;
    }
    out
}

/// Every element of the batch with its lock cleared; all other fields are
/// untouched.
pub fn unlock_all(elements: &Vec<Element>) -> (r: Vec<Element>)
    ensures
        r@.len() == elements@.len(),
        forall|i: int| 0 <= i < elements@.len() ==> r@[i] == with_lock(elements@[i], None),
{
    let mut out: Vec<Element> = Vec::new();
    let mut i: usize = 0;
    while i < elements.len()
        invariant
            i <= elements@.len(),
            out@.len() == i,
            forall|j: int| 0 <= j < i ==> out@[j] == with_lock(elements@[j], None),
        decreases elements@.len() - i,
    {
        let e = &elements[i];
        let mut unlocked = e.duplicate();
        unlocked.locked_by = None;
        out.push(unlocked);
        i = i + 1;
    }
    out
}

/// Every element of the batch moved by the offset and locked by the mover.
pub fn move_all(elements: &Vec<Element>, user: &String, x_offset: i64, y_offset: i64) -> (r: Vec<
    Element,
>)
    ensures
        r@.len() == elements@.len(),
        forall|i: int| 0 <= i < elements@.len()
            ==> r@[i] == moved_element(elements@[i], *user, x_offset as int, y_offset as int),
{
    let mut out: Vec<Element> = Vec::new();
    let mut i: usize = 0;
    while i < elements.len()
        invariant
            i <= elements@.len(),
            out@.len() == i,
            forall|j: int| 0 <= j < i
                ==> out@[j] == moved_element(elements@[j], *user, x_offset as int, y_offset as int),
        decreases elements@.len() - i,
    {
        let e = &elements[i];
        let mut moved = e.duplicate();
        moved.locked_by = Some(user.clone());
        moved.x = coord_add(e.x, x_offset);
        moved.y = coord_add(e.y, y_offset);
        out.push(moved);
        assert(out@[i as int] == moved_element(elements@[i as int], *user, x_offset as int,
            y_offset as int));
        i = i + 1;
    }
    out
}

} // verus!
