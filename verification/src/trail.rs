//! The trail: a fixed-capacity store of sampled points with a write cursor.
//!
//! What happens when the store is full is chosen when the store is made: it
//! either freezes and turns further points away, or wraps round and overwrites
//! the oldest points.

use crate::record::Vertex;
use crate::storage::{blanks, DrawVec};
use vstd::arithmetic::div_mod::{lemma_fundamental_div_mod, lemma_fundamental_div_mod_converse};
use vstd::prelude::*;
use vstd::slice::slice_subrange;

verus! {

/// The largest capacity a trail can have: the number of vertices of a draw
/// call is a 32-bit count.
pub const MAX_CAPACITY: usize = 0xffff_ffff;

/// What an append does once every slot has been written.
#[derive(Clone, Copy, Debug, PartialEq, Eq, Structural)]
pub enum OverflowPolicy {
    /// The point is turned away and the trail stays as it is.
    Freeze,
    /// The cursor goes back to slot 0 and the oldest points are overwritten.
    RingOverwrite,
}

/// Why a capacity cannot be used for a trail.
#[derive(Clone, Copy, Debug, PartialEq, Eq, Structural)]
pub enum CapacityError {
    Zero,
    TooLarge,
}

/// The mathematical content of a trail.
pub struct TrailView {
    pub policy: OverflowPolicy,
    /// The slots `0..cursor` have been written since the cursor last stood at
    /// slot 0.
    pub cursor: nat,
    /// The cursor has gone back to slot 0 at least once.
    pub lapped: bool,
    pub storage: Seq<Vertex>,
}

impl TrailView {
    /// The number of slots.
    pub open spec fn capacity(self) -> nat {
        self.storage.len()
    }

    /// There is at least one slot and no more than [`MAX_CAPACITY`]; the
    /// cursor lies within the slots or just behind the last; only a ring laps;
    /// and until the trail has lapped, every slot from the cursor on is blank.
    pub open spec fn wf(self) -> bool {
        &&& 0 < self.capacity() <= MAX_CAPACITY
        &&& self.cursor <= self.capacity()
        &&& self.lapped ==> self.policy == OverflowPolicy::RingOverwrite && self.cursor >= 1
        &&& !self.lapped ==> forall|i: int|
            self.cursor <= i < self.capacity() ==> self.storage[i] == Vertex::blank()
    }

    /// The trail before any point is appended: every slot blank, cursor at 0.
    pub open spec fn fresh(capacity: nat, policy: OverflowPolicy) -> TrailView {
        TrailView { policy, cursor: 0, lapped: false, storage: blanks(capacity) }
    }

    /// The cursor stands behind the last slot.
    pub open spec fn is_full(self) -> bool {
        self.cursor == self.capacity()
    }

    /// The slot that the next append writes, or `None` when it writes none.
    pub open spec fn write_index(self) -> Option<nat> {
        if !self.is_full() {
            Some(self.cursor)
        } else {
            match self.policy {
                OverflowPolicy::Freeze => None,
                OverflowPolicy::RingOverwrite => Some(0),
            }
        }
    }

    /// The trail after an append of `point`.
    pub open spec fn appended(self, point: Vertex) -> TrailView {
        match self.write_index() {
            None => self,
            Some(i) => TrailView {
                policy: self.policy,
                cursor: i + 1,
                lapped: self.lapped || self.is_full(),
                storage: self.storage.update(i as int, point),
            },
        }
    }

    /// The trail after appending each of `points` in turn.
    pub open spec fn appended_all(self, points: Seq<Vertex>) -> TrailView
        decreases points.len(),
    {
        if points.len() == 0 {
            self
        } else {
            self.appended_all(points.drop_last()).appended(points.last())
        }
    }

    /// The points to draw: the slots below the cursor.
    pub open spec fn drawable(self) -> Seq<Vertex> {
        self.storage.subrange(0, self.cursor as int)
    }

    /// All points that the trail holds, oldest first.
    pub open spec fn held(self) -> Seq<Vertex> {
        if self.lapped {
            self.storage.subrange(self.cursor as int, self.capacity() as int)
                + self.storage.subrange(0, self.cursor as int)
        } else {
            self.drawable()
        }
    }
}

/// Of the points appended to a fresh trail, those that it holds afterwards:
/// all of them while they fit, then the first `capacity` under
/// [`OverflowPolicy::Freeze`] and the last `capacity` under
/// [`OverflowPolicy::RingOverwrite`].
pub open spec fn kept(points: Seq<Vertex>, capacity: nat, policy: OverflowPolicy) -> Seq<Vertex> {
    if points.len() <= capacity {
        points
    } else {
        match policy {
            OverflowPolicy::Freeze => points.subrange(0, capacity as int),
            OverflowPolicy::RingOverwrite => points.subrange(
                points.len() - capacity,
                points.len() as int,
            ),
        }
    }
}

/// Where the cursor of a fresh trail stands after `count` appends: at `count`
/// while the points fit; then at the capacity if the trail freezes, and, in
/// a ring, one slot behind the slot `(count - 1) % capacity` that the last
/// append wrote.
pub open spec fn cursor_after(count: nat, capacity: nat, policy: OverflowPolicy) -> nat {
    if count <= capacity {
        count
    } else {
        match policy {
            OverflowPolicy::Freeze => capacity,
            OverflowPolicy::RingOverwrite => ((count - 1) % (capacity as int) + 1) as nat,
        }
    }
}

/// A fixed-capacity store of sampled points.
pub struct TrailBuffer {
    storage: DrawVec,
    cursor: usize,
    policy: OverflowPolicy,
    lapped: bool,
}

impl View for TrailBuffer {
    type V = TrailView;

    closed spec fn view(&self) -> TrailView {
        TrailView {
            policy: self.policy,
            cursor: self.cursor as nat,
            lapped: self.lapped,
            storage: self.storage@,
        }
    }
}

impl TrailBuffer {
    /// Holds of every trail.
    #[verifier::type_invariant]
    pub open spec fn inv(self) -> bool {
        self@.wf()
    }

    /// A trail of `capacity` blank slots with its cursor at 0.
    pub fn new(capacity: usize, policy: OverflowPolicy) -> (r: Result<TrailBuffer, CapacityError>)
        ensures
            capacity == 0 ==> r == Err::<TrailBuffer, CapacityError>(CapacityError::Zero),
            capacity > MAX_CAPACITY ==> r == Err::<TrailBuffer, CapacityError>(
                CapacityError::TooLarge,
            ),
            0 < capacity <= MAX_CAPACITY ==> r is Ok && r->Ok_0@ == TrailView::fresh(
                capacity as nat,
                policy,
            ),
    {
        if capacity == 0 {
            Err(CapacityError::Zero)
        } else if capacity > MAX_CAPACITY {
            Err(CapacityError::TooLarge)
        } else {
            Ok(TrailBuffer { storage: DrawVec::filled(capacity), cursor: 0, policy, lapped: false })
        }
    }

    /// The number of slots.
    pub fn capacity(&self) -> (n: usize)
        ensures
            n == self@.capacity(),
            0 < n <= MAX_CAPACITY,
    {
        proof {
            use_type_invariant(self);
        }
        self.storage.len()
    }

    /// The next slot to write; also the number of points to draw.
    pub fn cursor(&self) -> (c: usize)
        ensures
            c == self@.cursor,
            c <= self@.capacity(),
    {
        proof {
            use_type_invariant(self);
        }
        self.cursor
    }

    /// What an append does once the trail is full.
    pub fn policy(&self) -> (p: OverflowPolicy)
        ensures
            p == self@.policy,
    {
        self.policy
    }

    /// Whether the cursor has gone back to slot 0 at least once.
    pub fn has_lapped(&self) -> (b: bool)
        ensures
            b == self@.lapped,
    {
        self.lapped
    }

    /// Whether the cursor stands behind the last slot.
    pub fn is_full(&self) -> (b: bool)
        ensures
            b == self@.is_full(),
    {
        self.cursor == self.storage.len()
    }

    /// The number of points that the trail holds.
    pub fn len(&self) -> (n: usize)
        ensures
            n == self@.held().len(),
            n <= self@.capacity(),
    {
        proof {
            use_type_invariant(self);
        }
        if self.lapped {
            self.storage.len()
        } else {
            self.cursor
        }
    }

    /// Writes `point` into the slot at the cursor and moves the cursor one
    /// slot on; returns the slot written. When the trail is full, a freezing
    /// trail returns `None` and stays as it is, and a ring first takes the
    /// cursor back to slot 0.
    pub fn append(&mut self, point: Vertex) -> (written: Option<usize>)
        ensures
            final(self)@ == old(self)@.appended(point),
            match written {
                Some(i) => old(self)@.write_index() == Some(i as nat),
                None => old(self)@.write_index() is None,
            },
            final(self)@.capacity() == old(self)@.capacity(),
            final(self)@.cursor <= final(self)@.capacity(),
        no_unwind
    {
        proof {
            use_type_invariant(&*self);
        }
        let capacity: usize = self.storage.len();
        let mut index: usize = self.cursor;
        if index == capacity {
            match self.policy {
                OverflowPolicy::Freeze => {
                    return None;
                },
                OverflowPolicy::RingOverwrite => {
                    self.lapped = true;
                    index = 0;
                },
            }
        }
        self.cursor = index + 1;
        self.storage.set(index, point);
        Some(index)
    }

    /// The points to draw: the slots below the cursor, and never a slot that
    /// was not written.
    pub fn drawable_slice(&self) -> (points: &[Vertex])
        ensures
            points@ == self@.drawable(),
            points@.len() == self@.cursor,
    {
        proof {
            use_type_invariant(self);
        }
        slice_subrange(self.storage.as_slice(), 0, self.cursor)
    }

    /// All slots, written or not: what the vertex buffer mirrors.
    pub fn storage(&self) -> (s: &DrawVec)
        ensures
            s@ == self@.storage,
    {
        &self.storage
    }
}

/// An append keeps the capacity, and leaves the cursor between 0 and the
/// capacity.
pub proof fn lemma_append_keeps_bounds(trail: TrailView, point: Vertex)
    requires
        trail.wf(),
    ensures
        trail.appended(point).wf(),
        trail.appended(point).capacity() == trail.capacity(),
        trail.appended(point).policy == trail.policy,
        0 <= trail.appended(point).cursor <= trail.capacity(),
{
}

/// After any sequence of appends the cursor lies between 0 and the capacity.
pub proof fn lemma_appends_keep_bounds(trail: TrailView, points: Seq<Vertex>)
    requires
        trail.wf(),
    ensures
        trail.appended_all(points).wf(),
        trail.appended_all(points).capacity() == trail.capacity(),
        trail.appended_all(points).policy == trail.policy,
        0 <= trail.appended_all(points).cursor <= trail.capacity(),
    decreases points.len(),
{
    if points.len() > 0 {
        lemma_appends_keep_bounds(trail, points.drop_last());
        lemma_append_keeps_bounds(trail.appended_all(points.drop_last()), points.last());
    }
}

/// What an append does to the points held: while there is room the point is
/// added as the newest; once the trail is full, a freezing trail holds what
/// it held, and a ring drops its oldest point for the new one.
pub proof fn lemma_append_slides(trail: TrailView, point: Vertex)
    requires
        trail.wf(),
    ensures
        trail.held().len() <= trail.capacity(),
        trail.held().len() < trail.capacity() ==> trail.appended(point).held()
            == trail.held().push(point),
        trail.held().len() == trail.capacity() ==> trail.appended(point).held() == (
        match trail.policy {
            OverflowPolicy::Freeze => trail.held(),
            OverflowPolicy::RingOverwrite => trail.held().subrange(
                1,
                trail.capacity() as int,
            ).push(point),
        }),
{
    let after = trail.appended(point);
    if trail.held().len() < trail.capacity() {
        assert(after.held() =~= trail.held().push(point));
    } else if trail.policy == OverflowPolicy::RingOverwrite {
        assert(after.held() =~= trail.held().subrange(1, trail.capacity() as int).push(point));
    }
}

/// A fresh trail to which `points` were appended in turn holds
/// [`kept`]`(points, capacity, policy)`, oldest first; under
/// [`OverflowPolicy::Freeze`] its cursor is the number of points held.
pub proof fn lemma_fresh_trail_holds(capacity: nat, policy: OverflowPolicy, points: Seq<Vertex>)
    requires
        0 < capacity <= MAX_CAPACITY,
    ensures
        TrailView::fresh(capacity, policy).appended_all(points).wf(),
        TrailView::fresh(capacity, policy).appended_all(points).held() == kept(
            points,
            capacity,
            policy,
        ),
        TrailView::fresh(capacity, policy).appended_all(points).held().len() == (if points.len()
            <= capacity {
            points.len()
        } else {
            capacity
        }),
        policy == OverflowPolicy::Freeze ==> TrailView::fresh(capacity, policy).appended_all(
            points,
        ).cursor == kept(points, capacity, policy).len(),
    decreases points.len(),
{
    let fresh = TrailView::fresh(capacity, policy);
    if points.len() > 0 {
        let before = fresh.appended_all(points.drop_last());
        lemma_fresh_trail_holds(capacity, policy, points.drop_last());
        lemma_appends_keep_bounds(fresh, points.drop_last());
        lemma_append_slides(before, points.last());
        assert(before.appended(points.last()).held() =~= kept(points, capacity, policy));
    }
}

/// The remainder of `m` is one more than that of `m - 1`, or zero where that
/// was the last remainder.
proof fn lemma_next_remainder(m: int, d: int)
    requires
        m >= 1,
        d > 0,
    ensures
        0 <= (m - 1) % d < d,
        m % d == (if (m - 1) % d == d - 1 {
            0
        } else {
            (m - 1) % d + 1
        }),
{
    let q = (m - 1) / d;
    let r = (m - 1) % d;
    lemma_fundamental_div_mod(m - 1, d);
    assert(q * d == d * q) by (nonlinear_arith);
    if r == d - 1 {
        assert((q + 1) * d == d * q + d) by (nonlinear_arith);
        lemma_fundamental_div_mod_converse(m, d, q + 1, 0);
    } else {
        lemma_fundamental_div_mod_converse(m, d, q, r + 1);
    }
}

/// A fresh trail to which `points` were appended in turn has its cursor at
/// [`cursor_after`]`(points.len(), capacity, policy)`, and has lapped if and
/// only if it is a ring and there were more points than slots.
pub proof fn lemma_fresh_trail_cursor(capacity: nat, policy: OverflowPolicy, points: Seq<Vertex>)
    requires
        0 < capacity <= MAX_CAPACITY,
    ensures
        TrailView::fresh(capacity, policy).appended_all(points).cursor == cursor_after(
            points.len(),
            capacity,
            policy,
        ),
        TrailView::fresh(capacity, policy).appended_all(points).lapped == (policy
            == OverflowPolicy::RingOverwrite && points.len() > capacity),
    decreases points.len(),
{
    let fresh = TrailView::fresh(capacity, policy);
    if points.len() > 0 {
        let m = (points.len() - 1) as nat;
        lemma_fresh_trail_cursor(capacity, policy, points.drop_last());
        lemma_appends_keep_bounds(fresh, points.drop_last());
        if m >= capacity {
            lemma_next_remainder(m as int, capacity as int);
            if m == capacity {
                lemma_fundamental_div_mod_converse(m - 1, capacity as int, 0, m - 1);
            }
        }
    }
}

} // verus!
